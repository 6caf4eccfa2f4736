use aquila::s3::S3Storage;

fn client() -> aws_sdk_s3::Client {
    let config = aws_sdk_s3::Config::builder()
        .behavior_version(aws_sdk_s3::config::BehaviorVersion::latest())
        .build();
    aws_sdk_s3::Client::from_conf(config)
}

#[test]
fn keys_carry_the_prefix() {
    let s = S3Storage::new(client(), "bucket".to_string(), Some("production/".to_string()));
    assert_eq!(s.bucket(), "bucket");
    assert_eq!(s.key("abc"), "production/abc");
    assert_eq!(s.key("manifests/v1"), "production/manifests/v1");
}

#[test]
fn missing_prefix_leaves_paths_as_they_are() {
    let s = S3Storage::new(client(), "bucket".to_string(), None);
    assert_eq!(s.key("abc"), "abc");
}

#[test]
fn presigning_off_by_default() {
    let s = S3Storage::new(client(), "bucket".to_string(), None);
    assert!(s.presign_request("abc").is_none());
}

#[test]
fn presigning_uses_the_key_and_lifetime() {
    let s = S3Storage::new(client(), "bucket".to_string(), Some("p/".to_string())).with_presigning(300);
    assert_eq!(s.presign_request("abc"), Some(("p/abc".to_string(), 300)));
}
