use dive_rs::image::config::Config;
use dive_rs::image::manifest::Manifest;
use dive_rs::render::{config_to_vec, manifest_to_vec};

const CONFIG_BODY: &str = r#"{
    "created": "2020-10-22T02:19:24.499382102Z",
    "architecture": "amd64",
    "os": "linux",
    "config": { "User": "" },
    "rootfs": {
        "diff_ids": [
            "sha256:ace0eda3e3be35a979cec764a3321b4c7d0b9e4bb3094d20d3ff6782961a8d54"
        ],
        "type": "layers"
    },
    "history": [
        {
            "created": "2020-10-22T02:19:24.33416307Z",
            "created_by": "/bin/sh -c #(nop) ADD file:f17f65714f703db90 in / "
        }
    ]
}"#;

const MANIFEST_BODY: &str = r#"{
    "schemaVersion": 2,
    "config": {
        "mediaType": "application/vnd.docker.container.image.v1+json",
        "size": 1469,
        "digest": "sha256:d6e46aa2470df1d32034c6707c8041158b652f38d2a9ae3d7ad7e7532d22ebe0"
    },
    "layers": [
        {
            "mediaType": "application/vnd.docker.image.rootfs.diff.tar.gzip",
            "size": 2797541,
            "digest": "sha256:188c0c94c7c576fff0792aca7ec73d67a2f7f4cb3a6e53a84559337260b36964"
        }
    ]
}"#;

#[test]
fn test_config_to_vec() {
    let c: Config = Config::parse(CONFIG_BODY).unwrap();

    let v = vec![
        "Created: 2020-10-22T02:19:24.499382102Z".to_string(),
        "Arch: Amd64".to_string(),
        "OS: Linux".to_string(),
        "Configuration".to_string(),
        "> User: ".to_string(),
    ];

    assert_eq!(config_to_vec(&Some(c)), v);
    assert_eq!(config_to_vec(&None).len(), 0);
}

#[test]
fn test_manifest_to_vec() {
    let m: Manifest = Manifest::parse(MANIFEST_BODY).unwrap();

    let v = vec![
        "> sha256:188c0c94c7c576fff0792aca7ec73d67a2f7f4cb3a6e53a84559337260b36964".to_string(),
    ];

    assert_eq!(manifest_to_vec(&Some(m)), v);
    assert_eq!(manifest_to_vec(&None).len(), 0);
}

#[test]
fn config_lines_include_author_when_named() {
    let body = r#"{
        "created": "2020-10-22T02:19:24.499382102Z",
        "author": "somebody",
        "architecture": "amd64",
        "os": "linux",
        "config": {},
        "rootfs": { "diff_ids": [], "type": "layers" },
        "history": []
    }"#;
    let c = Config::parse(body).unwrap();
    let lines = config_to_vec(&Some(c));
    assert_eq!(lines[0], "Author: somebody".to_string());
    assert_eq!(lines[4], "Configuration".to_string());
    assert_eq!(lines.len(), 5);
}
