use vstd::prelude::*;

use crate::errors::OciError;
use crate::strutil::{basename, basename_of};

verus! {

#[derive(Debug)]
pub struct File {}

#[derive(Debug)]
pub struct Dir {}

#[derive(Debug)]
pub struct Symlink {
    pub target: String,
}

/// What an archive entry stands for. Entry kinds the catalog does not model
/// (hard links, devices, pipes and the like) are kept as `Unimplemented`
/// rather than dropped, so the catalog's length matches the archive's.
#[derive(Debug)]
pub enum NodeSpec {
    File(File),
    Dir(Dir),
    Symlink(Symlink),
    Unimplemented(()),
}

/// One entry of the flat catalog: hierarchy lives in `full_path`, not in
/// nested children.
#[derive(Debug)]
pub struct Node {
    pub name: String,
    pub full_path: String,
    pub children: Option<Vec<Node>>,
    pub node_type: NodeSpec,
}

impl Node {
    /// A plain-file node for the given path, named by its final component.
    pub fn new_file(full_path: String) -> (r: Node)
        ensures
            r.name@ == basename_of(full_path@),
            r.full_path@ == full_path@,
            r.children is None,
            r.node_type is File,
    {
        let name = basename(full_path.as_str());
        Node { name, full_path, children: None, node_type: NodeSpec::File(File {}) }
    }

    /// Append a child, when this node keeps children at all.
    pub fn add_node(&mut self, new_node: Node)
        ensures
            match old(self).children {
                Some(v) => {
                    &&& final(self).children matches Some(v2) && v2@ == v@.push(new_node)
                    &&& final(self).name == old(self).name
                    &&& final(self).full_path == old(self).full_path
                    &&& final(self).node_type == old(self).node_type
                },
                None => *final(self) == *old(self),
            },
    {
        match self.children.take() {
            Some(mut v) => {
                v.push(new_node);
                self.children = Some(v);
            },
            None => {},
        }
    }
}

/// The catalog of one layer: a root directory whose children are the flat
/// list of archive entries.
pub struct Layer {
    pub file_tree: Node,
}

impl Default for Layer {
    /// An empty catalog: a root directory with no entries.
    fn default() -> (r: Layer)
        ensures
            r.file_tree.name@ == "/"@,
            r.file_tree.full_path@ == "/"@,
            r.file_tree.children matches Some(v) && v@.len() == 0,
            r.file_tree.node_type is Dir,
    {
        Layer {
            file_tree: Node {
                name: String::from_str("/"),
                full_path: String::from_str("/"),
                children: Some(Vec::new()),
                node_type: NodeSpec::Dir(Dir {}),
            },
        }
    }
}

/// What `flate2`'s gzip decoder yields on `b`: the decompressed bytes, or
/// nothing when the stream is not valid gzip. The result is a function of
/// the bytes alone.
pub uninterp spec fn gunzip_of(b: Seq<u8>) -> Option<Seq<u8>>;

/// Relies on `flate2::read::GzDecoder`, driven by `std::io::Read::read_to_end`:
/// the whole stream is decompressed into one byte vector, or fails.
#[verifier::external_body]
fn gunzip(b: &[u8]) -> (r: Option<Vec<u8>>)
    ensures
        match r {
            Some(v) => gunzip_of(b@) == Some(v@),
            None => gunzip_of(b@) is None,
        },
{
    let mut decoder = flate2::read::GzDecoder::new(b);
    let mut out: Vec<u8> = Vec::new();
    match std::io::Read::read_to_end(&mut decoder, &mut out) {
        Ok(_) => Some(out),
        Err(_) => None,
    }
}

/// What the tar reader yields on the bytes of an archive: for each entry it
/// could read, in order, the entry's path, the raw type byte of its header,
/// and its link name where one is set. Entries whose header or path cannot
/// be read are skipped; nothing stands for an archive whose entry table
/// cannot be opened at all. The result is a function of the bytes alone.
pub uninterp spec fn tar_entries_of(b: Seq<u8>) -> Option<Seq<(String, u8, Option<String>)>>;

/// Relies on `tar::Archive::entries` over in-memory bytes: each readable
/// entry is carried over as its lossily-decoded path, the raw type byte of
/// its header (`tar::EntryType::as_byte`), and its link name.
#[verifier::external_body]
fn tar_entries(b: &[u8]) -> (r: Option<Vec<(String, u8, Option<String>)>>)
    ensures
        match r {
            Some(v) => tar_entries_of(b@) == Some(v@),
            None => tar_entries_of(b@) is None,
        },
{
    let mut archive = tar::Archive::new(b);
    let entries = match archive.entries() {
        Ok(e) => e,
        Err(_) => return None,
    };
    let out = entries.filter_map(|e| e.ok()).filter_map(|e| {
        let path = e.path().ok()?.to_string_lossy().into_owned();
        let kind = e.header().entry_type().as_byte();
        let link = e.link_name().ok()?.map(|l| l.to_string_lossy().into_owned());
        Some((path, kind, link))
    }).collect();
    Some(out)
}

/// How one raw entry's type byte and link name classify its node: `0` is a
/// regular file, `5` a directory, `2` a symlink carrying its target, and
/// everything else (including a symlink without a target) is kept as
/// unimplemented.
pub open spec fn kind_matches(k: NodeSpec, t: u8, link: Option<String>) -> bool {
    if t == 48 {
        k is File
    } else if t == 53 {
        k is Dir
    } else if t == 50 {
        match link {
            Some(l) => k matches NodeSpec::Symlink(s) && s.target@ == l@,
            None => k is Unimplemented,
        }
    } else {
        k is Unimplemented
    }
}

/// The catalog node that stands for one raw archive entry.
pub open spec fn entry_node_matches(n: Node, e: (String, u8, Option<String>)) -> bool {
    &&& n.name@ == basename_of(e.0@)
    &&& n.full_path@ == seq!['/'] + e.0@
    &&& n.children matches Some(v) && v@.len() == 0
    &&& kind_matches(n.node_type, e.1, e.2)
}

impl Layer {
    /// Build the catalog of one layer blob: gunzip the bytes, walk the tar
    /// entries, and classify each into one node of the flat catalog. A
    /// stream that is not readable gzip-compressed tar fails whole: no
    /// partial catalog comes back.
    #[verifier::loop_isolation(false)]
    pub fn from_archive_bytes(bytes: &[u8]) -> (r: Result<Layer, OciError>)
        ensures
            match r {
                Ok(l) => {
                    &&& gunzip_of(bytes@) matches Some(tb) && tar_entries_of(tb) matches Some(es)
                        && l.file_tree.children matches Some(ns) && ns@.len() == es.len() && (
                    forall|i: int| 0 <= i < es.len() ==> entry_node_matches(#[trigger] ns@[i], es[i]))
                    &&& l.file_tree.name@ == "/"@
                    &&& l.file_tree.full_path@ == "/"@
                    &&& l.file_tree.node_type is Dir
                },
                Err(e) => {
                    &&& e == OciError::Decode
                    &&& !(gunzip_of(bytes@) matches Some(tb) && tar_entries_of(tb) is Some)
                },
            },
    {
        let tarbytes = match gunzip(bytes) {
            Some(v) => v,
            None => {
                return Err(OciError::Decode);
            },
        };
        let entries = match tar_entries(tarbytes.as_slice()) {
            Some(v) => v,
            None => {
                return Err(OciError::Decode);
            },
        };
        let mut nodes: Vec<Node> = Vec::new();
        let n = entries.len();
        let mut i: usize = 0;
        while i < n
            invariant
                i <= n,
                n == entries@.len(),
                nodes@.len() == i,
                forall|k: int|
                    0 <= k < i ==> entry_node_matches(#[trigger] nodes@[k], entries@[k]),
            decreases n - i,
        {
            let ghost nodesold = nodes@;
            let entry = &entries[i];
            let name = basename(entry.0.as_str());
            let mut full_path = String::from_str("/");
            full_path.append(entry.0.as_str());
            let node_type = if entry.1 == 48 {
                NodeSpec::File(File {})
            } else if entry.1 == 53 {
                NodeSpec::Dir(Dir {})
            } else if entry.1 == 50 {
                match &entry.2 {
                    Some(l) => NodeSpec::Symlink(Symlink { target: l.clone() }),
                    None => NodeSpec::Unimplemented(()),
                }
            } else {
                NodeSpec::Unimplemented(())
            };
            let node = Node { name, full_path, children: Some(Vec::new()), node_type };
            nodes.push(node);
            proof {
                reveal_strlit("/");
                assert(nodes@[i as int].full_path@ =~= seq!['/'] + entries@[i as int].0@);
                assert(entry_node_matches(nodes@[i as int], entries@[i as int]));
                assert(forall|k: int| 0 <= k < i ==> nodes@[k] == nodesold[k]);
            }
            i = i + 1;
        }
        Ok(
            Layer {
                file_tree: Node {
                    name: String::from_str("/"),
                    full_path: String::from_str("/"),
                    node_type: NodeSpec::Dir(Dir {}),
                    children: Some(nodes),
                },
            },
        )
    }
}

} // verus!
