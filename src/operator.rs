//! The generic-operator backend: one storage operator, configured once for
//! whichever provider is wanted, serves every operation.

use ::opendal::Operator;
use vstd::prelude::*;

verus! {

#[verifier::external_type_specification]
#[verifier::external_body]
pub struct ExOperator(Operator);

/// Stores objects through a multi-provider storage operator.
pub struct OpendalStorage {
    op: Operator,
}

impl OpendalStorage {
    pub closed spec fn operator_spec(&self) -> Operator {
        self.op
    }

    pub fn new(op: Operator) -> (r: Self)
        ensures
            r.operator_spec() == op,
    {
        OpendalStorage { op }
    }

    pub fn operator(&self) -> (r: &Operator)
        ensures
            *r == self.operator_spec(),
    {
        &self.op
    }
}

} // verus!
