use dive_rs::errors::OciError;
use dive_rs::image::config::{Architecture, Config, OS};

#[test]
fn config_test_from_str_ok() {
    let c = r#"
        {
            "created": "2015-10-31T22:22:56.015925234Z",
            "author": "Alyssa P. Hacker <alyspdev@example.com>",
            "architecture": "amd64",
            "os": "linux",
            "config": {
                "User": "alice",
                "ExposedPorts": {
                    "8080/tcp": {}
                },
                "Env": [
                    "PATH=/usr/local/sbin:/usr/local/bin:/usr/sbin:/usr/bin:/sbin:/bin",
                    "FOO=oci_is_a",
                    "BAR=well_written_spec"
                ],
                "Entrypoint": [
                    "/bin/my-app-binary"
                ],
                "Cmd": [
                    "--foreground",
                    "--config",
                    "/etc/my-app.d/default.cfg"
                ],
                "Volumes": {
                    "/var/job-result-data": {},
                    "/var/log/my-app-logs": {}
                },
                "WorkingDir": "/home/alice",
                "Labels": {
                    "com.example.project.git.url": "https://example.com/project.git",
                    "com.example.project.git.commit": "45a939b2999782a3f005621a8d0f29aa387e1d6b"
                }
            },
            "rootfs": {
              "diff_ids": [
                "sha256:c6f988f4874bb0add23a778f753c65efe992244e148a1d2ec2a8b664fb66bbd1",
                "sha256:5f70bf18a086007016e948b04aed3b82103a36bea41755b6cddfaf10ace3c6ef"
              ],
              "type": "layers"
            },
            "history": [
              {
                "created": "2015-10-31T22:22:54.690851953Z",
                "created_by": "/bin/sh -c #(nop) ADD file:a3bc1e842b69636f9df5256c49c5374fb4eef1e281fe3f282c65fb853ee171c5 in /"
              },
              {
                "created": "2015-10-31T22:22:55.613815829Z",
                "created_by": "/bin/sh -c #(nop) CMD [\"sh\"]",
                "empty_layer": true
              }
            ]
        }"#;

    let c: Config = Config::parse(c).unwrap();
    assert_eq!(c.config.user, Some("alice".to_string()));
    assert_eq!(c.config.working_dir, Some("/home/alice".to_string()));
    assert_eq!(c.config.labels.unwrap().len(), 2);
    assert_eq!(c.history.len(), 2);
    assert_eq!(c.rootfs.diff_ids.len(), 2);
    assert_eq!(
        c.config.entrypoint,
        Some(vec!["/bin/my-app-binary".to_string()])
    );
}

#[test]
fn test_display_architecture() {
    assert_eq!("Amd64", Architecture::Amd64.display());
    assert_eq!("Aarch64", Architecture::Aarch64.display());
}

#[test]
fn test_display_os() {
    assert_eq!("Linux", OS::Linux.display());
    assert_eq!("Windows", OS::Windows.display());
}

#[test]
fn config_rejects_wrong_shape() {
    assert!(matches!(Config::parse("not json"), Err(OciError::Decode)));
    assert!(matches!(Config::parse("{}"), Err(OciError::Decode)));
    let missing_rootfs = r#"{
        "created": "2015-10-31T22:22:56.015925234Z",
        "architecture": "amd64",
        "os": "linux",
        "config": {},
        "history": []
    }"#;
    assert!(matches!(
        Config::parse(missing_rootfs),
        Err(OciError::Decode)
    ));
}

#[test]
fn config_history_empty_layer_defaults_to_false() {
    let c = r#"{
        "created": "2015-10-31T22:22:56.015925234Z",
        "architecture": "aarch64",
        "os": "windows",
        "config": {},
        "rootfs": { "diff_ids": [], "type": "layers" },
        "history": [
            { "created": "a", "created_by": "b" },
            { "created": "c", "created_by": "d", "empty_layer": true }
        ]
    }"#;
    let c = Config::parse(c).unwrap();
    assert_eq!(c.architecture, Architecture::Aarch64);
    assert_eq!(c.os, OS::Windows);
    assert!(!c.history[0].empty_layer);
    assert!(c.history[1].empty_layer);
    assert!(c.author.is_none());
    assert!(c.config.user.is_none());
}
