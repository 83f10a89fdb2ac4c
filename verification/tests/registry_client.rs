use dive_rs::errors::OciError;
use dive_rs::image::config::{Architecture, OS};
use dive_rs::registry::{blob_from_response, config_from_response, manifest_from_response, token_from_response};

const MANIFEST_BODY: &str = r#"{
    "schemaVersion": 2,
    "config": {
        "mediaType": "application/vnd.docker.container.image.v1+json",
        "size": 1469,
        "digest": "sha256:d6e46aa2470df1d32034c6707c8041158b652f38d2a9ae3d7ad7e7532d22ebe0"
    },
    "layers": [
        {
            "mediaType": "application/vnd.docker.image.rootfs.diff.tar.gzip",
            "size": 2797541,
            "digest": "sha256:188c0c94c7c576fff0792aca7ec73d67a2f7f4cb3a6e53a84559337260b36964"
        }
    ]
}"#;

const CONFIG_BODY: &str = r#"{
    "created": "2020-10-22T02:19:24.499382102Z",
    "architecture": "amd64",
    "os": "linux",
    "config": { "User": "" },
    "rootfs": {
        "diff_ids": [
            "sha256:ace0eda3e3be35a979cec764a3321b4c7d0b9e4bb3094d20d3ff6782961a8d54"
        ],
        "type": "layers"
    },
    "history": [
        {
            "created": "2020-10-22T02:19:24.33416307Z",
            "created_by": "/bin/sh -c #(nop) ADD file:f17f65714f703db90 in / "
        }
    ]
}"#;

#[test]
fn get_manifest_ok() {
    let r = manifest_from_response(200, MANIFEST_BODY).unwrap();
    assert_eq!(r.schema_version, 2);
    assert_eq!(r.layers.len(), 1);
}

#[test]
fn get_config_ok() {
    let m = manifest_from_response(200, MANIFEST_BODY).unwrap();
    assert_eq!(
        m.config.digest.display(),
        "sha256:d6e46aa2470df1d32034c6707c8041158b652f38d2a9ae3d7ad7e7532d22ebe0".to_string()
    );

    let r = config_from_response(200, CONFIG_BODY).unwrap();
    assert_eq!(r.os, OS::Linux);
    assert_eq!(r.architecture, Architecture::Amd64);
}

#[test]
fn get_layer_ok() {}

#[test]
fn get_token_ok() {}

#[test]
fn manifest_with_two_layers() {
    let body = r#"{
        "schemaVersion": 2,
        "config": {
            "mediaType": "application/vnd.docker.container.image.v1+json",
            "size": 1469,
            "digest": "sha256:d6e46aa2470df1d32034c6707c8041158b652f38d2a9ae3d7ad7e7532d22ebe0"
        },
        "layers": [
            {
                "mediaType": "application/vnd.docker.image.rootfs.diff.tar.gzip",
                "size": 1000,
                "digest": "sha256:aaaaaaaaaaaaaaaaaaaaaaaaaaaaaaaaaaaaaaaaaaaaaaaaaaaaaaaaaaaaaaaa"
            },
            {
                "mediaType": "application/vnd.docker.image.rootfs.diff.tar.gzip",
                "size": 2000,
                "digest": "sha256:bbbbbbbbbbbbbbbbbbbbbbbbbbbbbbbbbbbbbbbbbbbbbbbbbbbbbbbbbbbbbbbb"
            }
        ]
    }"#;
    let m = manifest_from_response(200, body).unwrap();
    assert_eq!(m.schema_version, 2);
    assert_eq!(m.layers.len(), 2);
    assert_eq!(
        m.layers[1].digest.display(),
        "sha256:bbbbbbbbbbbbbbbbbbbbbbbbbbbbbbbbbbbbbbbbbbbbbbbbbbbbbbbbbbbbbbbb".to_string()
    );
}

#[test]
fn manifest_rejects_undecodable_body() {
    let r = manifest_from_response(200, "certainly not a manifest");
    assert!(matches!(r, Err(OciError::Decode)));
}

#[test]
fn manifest_keeps_denied_status() {
    match manifest_from_response(403, "denied") {
        Err(OciError::Http { status, body }) => {
            assert_eq!(status, 403);
            assert_eq!(body, Some("denied".to_string()));
        }
        other => panic!("expected an HTTP failure, got {:?}", other),
    }
    assert!(matches!(
        manifest_from_response(401, "unauthorized"),
        Err(OciError::Http { status: 401, .. })
    ));
}

#[test]
fn token_response_decided() {
    let ok = token_from_response(200, "{\"token\": \"abc\"}");
    assert_eq!(ok.unwrap(), "abc".to_string());

    let unauthorized = token_from_response(401, "{\"token\": \"abc\"}");
    assert!(matches!(unauthorized, Err(OciError::Auth)));

    let forbidden = token_from_response(403, "anything");
    assert!(matches!(forbidden, Err(OciError::Auth)));

    let garbled = token_from_response(200, "no json here");
    assert!(matches!(garbled, Err(OciError::Decode)));

    let wrong_field = token_from_response(200, "{\"nope\": \"abc\"}");
    assert!(matches!(wrong_field, Err(OciError::Decode)));
}

#[test]
fn manifest_response_rejects_other_schema() {
    let body = r#"{
        "schemaVersion": 1,
        "config": {
            "mediaType": "application/vnd.docker.container.image.v1+json",
            "size": 1469,
            "digest": "sha256:d6e46aa2470df1d32034c6707c8041158b652f38d2a9ae3d7ad7e7532d22ebe0"
        },
        "layers": []
    }"#;
    assert!(matches!(
        manifest_from_response(200, body),
        Err(OciError::Decode)
    ));
    assert!(matches!(manifest_from_response(200, MANIFEST_BODY), Ok(_)));
}

#[test]
fn blob_response_decided() {
    let bytes = vec![1u8, 2, 3];
    assert_eq!(blob_from_response(200, bytes.clone()).unwrap(), bytes);
    match blob_from_response(404, bytes) {
        Err(OciError::Http { status, body }) => {
            assert_eq!(status, 404);
            assert!(body.is_none());
        }
        other => panic!("expected an HTTP failure, got {:?}", other),
    }
}
