use dive_rs::errors::OciError;
use dive_rs::image::ImageReference;

#[test]
fn hostport_ok() {
    assert_eq!(
        ImageReference::from_str("registry.my:5000/test/test:v1")
            .unwrap()
            .hostport(),
        "registry.my:5000".to_string()
    );
    assert_eq!(
        ImageReference::from_str("test/test").unwrap().hostport(),
        "registry-1.docker.io:443".to_string()
    );
}

#[test]
fn tag_ok() {
    assert_eq!(
        ImageReference::from_str("registry.my:5000/test/test:v1")
            .unwrap()
            .tag(),
        "v1".to_string()
    );
    assert_eq!(
        ImageReference::from_str("registry.my:5000/test/test")
            .unwrap()
            .tag(),
        "latest".to_string()
    );
}

#[test]
fn name_ok() {
    assert_eq!(
        ImageReference::from_str("registry.my:5000/test/test:v1")
            .unwrap()
            .name(),
        "test/test".to_string()
    );
    assert_eq!(
        ImageReference::from_str("registry.my:5000/test/test")
            .unwrap()
            .name(),
        "test/test".to_string()
    );
}

#[test]
fn fullname_ok() {
    assert_eq!(
        ImageReference::from_str("registry.my:5000/test/test:v1")
            .unwrap()
            .fullname(),
        "test/test:v1".to_string()
    );
    assert_eq!(
        ImageReference::from_str("registry.my:5000/test/test")
            .unwrap()
            .fullname(),
        "test/test".to_string()
    );
}

#[test]
fn scheme_ok() {
    assert_eq!(
        ImageReference::from_str("registry.my:5000/test/test:v1")
            .unwrap()
            .scheme(),
        "https".to_string()
    );
    assert_eq!(
        ImageReference::from_str("http://registry.my:5000/test/test:v1")
            .unwrap()
            .scheme(),
        "http".to_string()
    );
    assert_eq!(
        ImageReference::from_str("test/test:v1").unwrap().scheme(),
        "https".to_string()
    );
}

#[test]
fn digest_ok() {
    assert_eq!(
        ImageReference::from_str("registry.my:5000/test/test@sha256:0000")
            .unwrap()
            .digest(),
        "@sha256:0000".to_string()
    );
    assert_eq!(
        ImageReference::from_str("registry.my:5000/test/test:v1")
            .unwrap()
            .digest(),
        "".to_string()
    );
}

#[test]
fn parse_error_reported() {
    let r = ImageReference::from_str("http://");
    assert!(matches!(r, Err(OciError::ReferenceParse)));
}
