use vstd::prelude::*;

use crate::image::config::{arch_label, os_label, Config};
use crate::image::manifest::Manifest;

verus! {

/// The display lines for a config, in order: the author when one is named;
/// the creation time, architecture and operating system; a heading; and the
/// user when one is named.
pub open spec fn config_lines(c: Config) -> Seq<Seq<char>> {
    (match c.author {
        Some(a) => seq!["Author: "@ + a@],
        None => Seq::<Seq<char>>::empty(),
    }) + seq![
        "Created: "@ + c.created@,
        "Arch: "@ + arch_label(c.architecture),
        "OS: "@ + os_label(c.os),
        "Configuration"@,
    ] + (match c.config.user {
        Some(u) => seq!["> User: "@ + u@],
        None => Seq::<Seq<char>>::empty(),
    })
}

pub open spec fn lines_match(r: Seq<String>, l: Seq<Seq<char>>) -> bool {
    r.len() == l.len() && (forall|i: int| 0 <= i < l.len() ==> (#[trigger] r[i])@ == l[i])
}

/// Render a config into its display lines.
pub fn config_to_vec(config: &Option<Config>) -> (r: Vec<String>)
    ensures
        match config {
            None => r@.len() == 0,
            Some(c) => lines_match(r@, config_lines(*c)),
        },
{
    match config {
        None => Vec::new(),
        Some(c) => {
            let mut v: Vec<String> = Vec::new();
            match &c.author {
                Some(author) => {
                    let mut s = String::from_str("Author: ");
                    s.append(author.as_str());
                    v.push(s);
                },
                None => {},
            }
            let mut created = String::from_str("Created: ");
            created.append(c.created.as_str());
            v.push(created);
            let mut arch = String::from_str("Arch: ");
            let arch_text = c.architecture.display();
            arch.append(arch_text.as_str());
            v.push(arch);
            let mut os = String::from_str("OS: ");
            let os_text = c.os.display();
            os.append(os_text.as_str());
            v.push(os);
            v.push(String::from_str("Configuration"));
            match &c.config.user {
                Some(user) => {
                    let mut s = String::from_str("> User: ");
                    s.append(user.as_str());
                    v.push(s);
                },
                None => {},
            }
            proof {
                assert(lines_match(v@, config_lines(*c)));
            }
            v
        },
    }
}

/// Render a manifest into its display lines: one `> <digest>` line per
/// layer, in the manifest's order.
pub fn manifest_to_vec(manifest: &Option<Manifest>) -> (r: Vec<String>)
    ensures
        match manifest {
            None => r@.len() == 0,
            Some(m) => r@.len() == m.layers@.len() && (forall|i: int|
                0 <= i < m.layers@.len() ==> (#[trigger] r@[i])@ == "> "@
                    + m.layers@[i].digest.0@),
        },
{
    match manifest {
        None => Vec::new(),
        Some(m) => {
            let mut v: Vec<String> = Vec::new();
            let n = m.layers.len();
            let mut i: usize = 0;
            while i < n
                invariant
                    i <= n,
                    n == m.layers@.len(),
                    v@.len() == i,
                    forall|k: int|
                        0 <= k < i ==> (#[trigger] v@[k])@ == "> "@ + m.layers@[k].digest.0@,
                decreases n - i,
            {
                let ghost vold = v@;
                let mut s = String::from_str("> ");
                let digest = m.layers[i].digest.display();
                s.append(digest.as_str());
                v.push(s);
                proof {
                    assert(forall|k: int| 0 <= k < i ==> v@[k] == vold[k]);
                }
                i = i + 1;
            }
            v
        },
    }
}

} // verus!
