use dive_rs::errors::OciError;
use dive_rs::image::layer::{Layer, Node, NodeSpec};
use flate2::write::GzEncoder;
use flate2::Compression;
use std::io::Write;
use tar::{Builder, EntryType, Header};

fn fixture_archive_bytes() -> Vec<u8> {
    let mut builder = Builder::new(Vec::new());
    for i in 0..493 {
        let mut header = Header::new_gnu();
        header.set_size(4);
        header.set_entry_type(EntryType::Regular);
        header.set_mode(0o644);
        header.set_cksum();
        builder
            .append_data(&mut header, format!("dir/file{}.txt", i), &b"data"[..])
            .unwrap();
    }
    let mut header = Header::new_gnu();
    header.set_size(0);
    header.set_entry_type(EntryType::Directory);
    header.set_mode(0o755);
    header.set_cksum();
    builder.append_data(&mut header, "dir/", &b""[..]).unwrap();
    let mut header = Header::new_gnu();
    header.set_size(0);
    header.set_entry_type(EntryType::Symlink);
    header.set_mode(0o777);
    header.set_cksum();
    builder
        .append_link(&mut header, "dir/link", "file0.txt")
        .unwrap();
    let tar_bytes = builder.into_inner().unwrap();
    let mut encoder = GzEncoder::new(Vec::new(), Compression::default());
    encoder.write_all(&tar_bytes).unwrap();
    encoder.finish().unwrap()
}

#[test]
fn test_from_tar_gz() {
    let bytes = fixture_archive_bytes();
    let layer = Layer::from_archive_bytes(&bytes).unwrap();
    let nodes = layer.file_tree.children.unwrap();
    assert_eq!(nodes.len(), 495);

    let link = nodes
        .iter()
        .find(|n| matches!(n.node_type, NodeSpec::Symlink(_)))
        .unwrap();
    assert_eq!(link.full_path, "/dir/link".to_string());
    assert_eq!(link.name, "link".to_string());
    if let NodeSpec::Symlink(s) = &link.node_type {
        assert_eq!(s.target, "file0.txt".to_string());
    }

    let dir = nodes
        .iter()
        .find(|n| matches!(n.node_type, NodeSpec::Dir(_)))
        .unwrap();
    assert_eq!(dir.name, "dir".to_string());
    assert_eq!(dir.full_path, "/dir/".to_string());

    let file = nodes
        .iter()
        .find(|n| n.full_path == "/dir/file0.txt")
        .unwrap();
    assert!(matches!(file.node_type, NodeSpec::File(_)));
    assert_eq!(file.name, "file0.txt".to_string());
}

#[test]
fn test_add_node() {
    let mut layer: Layer = Default::default();
    let n = Node::new_file("app".to_string());
    layer.file_tree.add_node(n);
    let c = layer.file_tree.children.unwrap();
    assert_eq!(c.len(), 1);
    assert_eq!(c[0].name, "app".to_string());
}

#[test]
fn new_file_names_by_final_component() {
    assert_eq!(
        Node::new_file("/usr/bin/tool".to_string()).name,
        "tool".to_string()
    );
    assert_eq!(Node::new_file("dir/".to_string()).name, "dir".to_string());
    assert_eq!(Node::new_file("".to_string()).name, "Not found".to_string());
}

#[test]
fn corrupt_stream_rejected_whole() {
    let r = Layer::from_archive_bytes(&[1u8, 2, 3, 4]);
    assert!(matches!(r, Err(OciError::Decode)));
}
