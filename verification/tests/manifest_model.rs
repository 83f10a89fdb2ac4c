use dive_rs::errors::OciError;
use dive_rs::image::manifest::Manifest;
use dive_rs::manifest::parse_manifest;

#[test]
fn manifest_test_from_str_ok() {
    let c = r#"
        {
            "schemaVersion": 2,
            "config": {
                "mediaType": "application/vnd.oci.image.config.v1+json",
                "size": 7023,
                "digest": "sha256:b5b2b2c507a0944348e0303114d8d93aaaa081732b86451d9bce1f432a537bc7"
            },
            "layers": [
                {
                  "mediaType": "application/vnd.oci.image.layer.v1.tar+gzip",
                  "size": 32654,
                  "digest": "sha256:9834876dcfb05cb167a5c24953eba58c4ac89b1adf57f28f2f9d09af107ee8f0"
                },
                {
                  "mediaType": "application/vnd.oci.image.layer.v1.tar+gzip",
                  "size": 16724,
                  "digest": "sha256:3c3a4604a545cdc127456d94e421cd355bca5b528f4a9c1905b15da2eb4a4c6b"
                }
            ],
            "annotations": {
              "annot1": "value1",
              "annot2": "value2"
            }
        }"#;

    let m = Manifest::parse(c);

    assert!(
        m.is_ok(),
        "Manifest parsing failed: `{:?}`",
        m.err().unwrap()
    );
}

#[test]
fn test_parse_manifest_ok() {
    let c = r#"
        {
            "schemaVersion": 2,
            "config": {
                "mediaType": "application/vnd.oci.image.config.v1+json",
                "size": 7023,
                "digest": "sha256:b5b2b2c507a0944348e0303114d8d93aaaa081732b86451d9bce1f432a537bc7"
            },
            "layers": [
                {
                  "mediaType": "application/vnd.oci.image.layer.v1.tar+gzip",
                  "size": 32654,
                  "digest": "sha256:9834876dcfb05cb167a5c24953eba58c4ac89b1adf57f28f2f9d09af107ee8f0"
                },
                {
                  "mediaType": "application/vnd.oci.image.layer.v1.tar+gzip",
                  "size": 16724,
                  "digest": "sha256:3c3a4604a545cdc127456d94e421cd355bca5b528f4a9c1905b15da2eb4a4c6b"
                }
            ],
            "annotations": {
              "annot1": "value1",
              "annot2": "value2"
            }
        }"#;
    let m = parse_manifest(c);

    if m.is_err() {
        println!("Error {:?}", m.err());
        assert!(false);
    } else {
        assert!(m.is_ok());
        println!("Result: {:?}", m.unwrap());
    }
}

#[test]
fn manifest_fields_carried_over() {
    let c = r#"{
        "schemaVersion": 2,
        "config": {
            "mediaType": "application/vnd.oci.image.config.v1+json",
            "size": 7023,
            "digest": "sha256:b5b2b2c507a0944348e0303114d8d93aaaa081732b86451d9bce1f432a537bc7"
        },
        "layers": [
            {
              "mediaType": "application/vnd.oci.image.layer.v1.tar+gzip",
              "size": 32654,
              "digest": "sha256:9834876dcfb05cb167a5c24953eba58c4ac89b1adf57f28f2f9d09af107ee8f0"
            }
        ]
    }"#;
    let m = Manifest::parse(c).unwrap();
    assert_eq!(m.schema_version, 2);
    assert_eq!(m.config.size, 7023);
    assert_eq!(
        m.config.digest.display(),
        "sha256:b5b2b2c507a0944348e0303114d8d93aaaa081732b86451d9bce1f432a537bc7".to_string()
    );
    assert_eq!(m.layers.len(), 1);
    assert_eq!(
        m.layers[0].media_type,
        "application/vnd.oci.image.layer.v1.tar+gzip".to_string()
    );
    assert!(m.annotations.is_none());
}

#[test]
fn parse_manifest_requires_annotations() {
    let without = r#"{
        "schemaVersion": 2,
        "config": {
            "mediaType": "application/vnd.oci.image.config.v1+json",
            "size": 7023,
            "digest": "sha256:b5b2b2c507a0944348e0303114d8d93aaaa081732b86451d9bce1f432a537bc7"
        },
        "layers": []
    }"#;
    assert!(matches!(parse_manifest(without), Err(OciError::Decode)));
}
