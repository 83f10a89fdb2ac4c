pub mod config;
pub mod layer;
pub mod manifest;

use vstd::prelude::*;

use crate::errors::OciError;
use crate::strutil::{
    find_char, has_prefix, index_of_first, lemma_index_of_first_append, lemma_index_of_first_at,
    lemma_index_of_first_none, lemma_index_of_first_props, str_has_prefix, u16_to_dec, dec_digits,
};

verus! {

/// What every normalized image reference exposes.
pub trait Reference {
    spec fn valid(&self) -> bool;

    fn hostport(&self) -> String
        requires
            self.valid(),
    ;

    fn fullname(&self) -> String
        requires
            self.valid(),
    ;

    fn name(&self) -> String
        requires
            self.valid(),
    ;

    fn tag(&self) -> String
        requires
            self.valid(),
    ;

    fn digest(&self) -> String
        requires
            self.valid(),
    ;

    fn scheme(&self) -> String
        requires
            self.valid(),
    ;
}

/// The repository name part of a path remainder: everything before the first
/// `:`, or all of it when there is none.
pub open spec fn name_of(fullname: Seq<char>) -> Seq<char> {
    match index_of_first(fullname, ':') {
        Some(i) => fullname.take(i),
        None => fullname,
    }
}

/// The tag part of a path remainder: everything after the first `:`, or
/// `latest` when there is none.
pub open spec fn tag_of(fullname: Seq<char>) -> Seq<char> {
    match index_of_first(fullname, ':') {
        Some(i) => fullname.skip(i + 1),
        None => "latest"@,
    }
}

/// The digest part of a path: from the first `@` to the end, or empty when
/// there is none.
pub open spec fn digest_of(path: Seq<char>) -> Seq<char> {
    match index_of_first(path, '@') {
        Some(i) => path.skip(i),
        None => Seq::<char>::empty(),
    }
}

/// Whether the segment before the first `/` names a registry of its own: it
/// does when it holds a `.` or a `:`.
pub open spec fn explicit_host(seg: Seq<char>) -> bool {
    index_of_first(seg, '.') is Some || index_of_first(seg, ':') is Some
}

/// The reference with the default public registry host prepended when none is
/// given.
pub open spec fn hostified_of(s: Seq<char>) -> Seq<char> {
    match index_of_first(s, '/') {
        Some(i) => if explicit_host(s.take(i)) {
            s
        } else {
            "registry-1.docker.io/"@ + s
        },
        None => "registry-1.docker.io/"@ + s,
    }
}

/// The reference as a full URL string: kept verbatim when it already carries
/// an explicit scheme, otherwise host-completed and prefixed with `https://`.
pub open spec fn normalized_of(s: Seq<char>) -> Seq<char> {
    if has_prefix(s, "http://"@) || has_prefix(s, "https://"@) {
        s
    } else {
        "https://"@ + hostified_of(s)
    }
}

pub open spec fn opt_string_view(o: Option<String>) -> Option<Seq<char>> {
    match o {
        Some(s) => Some(s@),
        None => None,
    }
}

/// What `url::Url::parse` yields on `s`, read out as plain values: scheme,
/// host, port and path, or `None` when `s` is not a valid URL. The crate
/// computes this from its input alone.
pub uninterp spec fn url_parts_of(s: Seq<char>) -> Option<
    (Seq<char>, Option<Seq<char>>, Option<u16>, Seq<char>),
>;

/// Relies on `url::Url::parse` and the `Url` accessors `scheme`, `host_str`,
/// `port` and `path`: one parse, with the four components read out as plain
/// strings. `url` documents that `scheme` is the lower-cased part before the
/// first `:` and that `path` begins with `/` for http and https URLs.
#[verifier::external_body]
fn parse_url_parts(s: &str) -> (r: Option<(String, Option<String>, Option<u16>, String)>)
    ensures
        match r {
            Some(t) => {
                &&& url_parts_of(s@) == Some((t.0@, opt_string_view(t.1), t.2, t.3@))
                &&& ((t.0@ == "http"@ || t.0@ == "https"@) ==> (t.3@.len() >= 1 && t.3@[0] == '/'))
                &&& (has_prefix(s@, "http://"@) ==> t.0@ == "http"@)
                &&& (has_prefix(s@, "https://"@) ==> t.0@ == "https"@)
            },
            None => url_parts_of(s@) is None,
        },
{
    match url::Url::parse(s) {
        Ok(u) => {
            let host = u.host_str().map(|h| h.to_string());
            Some((u.scheme().to_string(), host, u.port(), u.path().to_string()))
        },
        Err(_) => None,
    }
}

/// A parsed, normalized image reference: scheme, host, port and path as the
/// URL parser returned them.
#[derive(Debug, Clone)]
pub struct ImageReference {
    pub scheme: String,
    pub host: Option<String>,
    pub port: Option<u16>,
    pub path: String,
}

impl ImageReference {
    /// The path starts with `/`; parsing establishes this.
    pub open spec fn wf(&self) -> bool {
        self.path@.len() >= 1 && self.path@[0] == '/'
    }

    pub open spec fn spec_scheme(&self) -> Seq<char> {
        self.scheme@
    }

    pub open spec fn spec_host(&self) -> Option<Seq<char>> {
        opt_string_view(self.host)
    }

    pub open spec fn spec_port(&self) -> Option<u16> {
        self.port
    }

    pub open spec fn spec_path(&self) -> Seq<char> {
        self.path@
    }

    /// The path without its leading slash.
    pub open spec fn spec_fullname(&self) -> Seq<char> {
        self.path@.skip(1)
    }

    pub open spec fn spec_name(&self) -> Seq<char> {
        name_of(self.spec_fullname())
    }

    pub open spec fn spec_tag(&self) -> Seq<char> {
        tag_of(self.spec_fullname())
    }

    pub open spec fn spec_digest(&self) -> Seq<char> {
        digest_of(self.path@)
    }

    /// Host and port, with the default public registry host and port 443
    /// filled in where the URL named none.
    pub open spec fn spec_hostport(&self) -> Seq<char> {
        (match self.host {
            Some(h) => h@,
            None => "registry-1.docker.io"@,
        }) + seq![':'] + dec_digits(
            match self.port {
                Some(p) => p as nat,
                None => 443 as nat,
            },
        )
    }

    /// Parse a user-supplied reference. The input is used verbatim when it
    /// already starts with `http://` or `https://`; otherwise the default
    /// registry host is prepended unless the first path segment names a host,
    /// and the scheme defaults to `https`. The completed string must then
    /// parse as a URL.
    pub fn from_str(s: &str) -> (r: Result<ImageReference, OciError>)
        ensures
            match r {
                Ok(ir) => {
                    &&& ir.wf()
                    &&& url_parts_of(normalized_of(s@)) == Some(
                        (ir.scheme@, opt_string_view(ir.host), ir.port, ir.path@),
                    )
                    &&& (has_prefix(s@, "http://"@) ==> ir.scheme@ == "http"@)
                    &&& (has_prefix(s@, "https://"@) ==> ir.scheme@ == "https"@)
                    &&& (!has_prefix(s@, "http://"@) && !has_prefix(s@, "https://"@)
                        ==> ir.scheme@ == "https"@)
                },
                Err(e) => url_parts_of(normalized_of(s@)) is None && e == OciError::ReferenceParse,
            },
    {
        let normalized: String;
        if str_has_prefix(s, "http://") || str_has_prefix(s, "https://") {
            normalized = s.to_owned();
        } else {
            let needs_default: bool = match find_char(s, '/') {
                Some(i) => {
                    proof {
                        lemma_index_of_first_props(s@, '/');
                    }
                    let seg = s.substring_char(0, i);
                    proof {
                        assert(seg@ =~= s@.take(i as int));
                    }
                    find_char(seg, '.').is_none() && find_char(seg, ':').is_none()
                },
                None => true,
            };
            let mut t = String::from_str("https://");
            if needs_default {
                t.append("registry-1.docker.io/");
            }
            t.append(s);
            proof {
                assert(t@ =~= normalized_of(s@));
            }
            normalized = t;
        }
        match parse_url_parts(normalized.as_str()) {
            Some((sch, h, p, path)) => {
                proof {
                    if !(has_prefix(s@, "http://"@) || has_prefix(s@, "https://"@)) {
                        assert(has_prefix(normalized@, "https://"@)) by {
                            assert(normalized@.take("https://"@.len() as int) =~= "https://"@);
                        }
                    }
                }
                Ok(ImageReference { scheme: sch, host: h, port: p, path })
            },
            None => Err(OciError::ReferenceParse),
        }
    }

    pub fn hostport(&self) -> (r: String)
        ensures
            r@ == self.spec_hostport(),
    {
        let mut h: String = match &self.host {
            Some(x) => x.clone(),
            None => String::from_str("registry-1.docker.io"),
        };
        h.append(":");
        let p: u16 = match self.port {
            Some(x) => x,
            None => 443,
        };
        let digits = u16_to_dec(p);
        h.append(digits.as_str());
        proof {
            reveal_strlit(":");
            assert(h@ =~= self.spec_hostport());
        }
        h
    }

    pub fn fullname(&self) -> (r: String)
        requires
            self.wf(),
        ensures
            r@ == self.spec_fullname(),
    {
        let n: usize = self.path.as_str().unicode_len();
        let r = self.path.as_str().substring_char(1, n).to_owned();
        proof {
            assert(r@ =~= self.spec_fullname());
        }
        r
    }

    pub fn name(&self) -> (r: String)
        requires
            self.wf(),
        ensures
            r@ == self.spec_name(),
    {
        let f = self.fullname();
        match find_char(f.as_str(), ':') {
            Some(i) => {
                proof {
                    lemma_index_of_first_props(f@, ':');
                }
                let r = f.as_str().substring_char(0, i).to_owned();
                proof {
                    assert(r@ =~= self.spec_name());
                }
                r
            },
            None => f,
        }
    }

    pub fn tag(&self) -> (r: String)
        requires
            self.wf(),
        ensures
            r@ == self.spec_tag(),
    {
        let f = self.fullname();
        match find_char(f.as_str(), ':') {
            Some(i) => {
                proof {
                    lemma_index_of_first_props(f@, ':');
                }
                let n: usize = f.as_str().unicode_len();
                let r = f.as_str().substring_char(i + 1, n).to_owned();
                proof {
                    assert(r@ =~= self.spec_tag());
                }
                r
            },
            None => String::from_str("latest"),
        }
    }

    pub fn digest(&self) -> (r: String)
        ensures
            r@ == self.spec_digest(),
    {
        match find_char(self.path.as_str(), '@') {
            Some(i) => {
                proof {
                    lemma_index_of_first_props(self.path@, '@');
                }
                let n: usize = self.path.as_str().unicode_len();
                let r = self.path.as_str().substring_char(i, n).to_owned();
                proof {
                    assert(r@ =~= self.spec_digest());
                }
                r
            },
            None => {
                let r = String::new();
                proof {
                    assert(r@ =~= self.spec_digest());
                }
                r
            },
        }
    }

    pub fn scheme(&self) -> (r: String)
        ensures
            r@ == self.spec_scheme(),
    {
        self.scheme.clone()
    }
}

impl Reference for ImageReference {
    open spec fn valid(&self) -> bool {
        self.wf()
    }

    fn hostport(&self) -> String {
        self.hostport()
    }

    fn fullname(&self) -> String {
        self.fullname()
    }

    fn name(&self) -> String {
        self.name()
    }

    fn tag(&self) -> String {
        self.tag()
    }

    fn digest(&self) -> String {
        self.digest()
    }

    fn scheme(&self) -> String {
        self.scheme()
    }
}

/// Law: on a path remainder of the form `name:tag`, with no `:` in the name
/// and no `@` anywhere, the accessors recover the name, the tag, and an empty
/// digest for the slash-prefixed path.
pub proof fn lemma_reference_round_trip(name: Seq<char>, tag: Seq<char>)
    requires
        forall|j: int| 0 <= j < name.len() ==> name[j] != ':',
        forall|j: int| 0 <= j < name.len() ==> name[j] != '@',
        forall|j: int| 0 <= j < tag.len() ==> tag[j] != '@',
    ensures
        name_of(name + seq![':'] + tag) == name,
        tag_of(name + seq![':'] + tag) == tag,
        digest_of(seq!['/'] + name + seq![':'] + tag) == Seq::<char>::empty(),
{
    let f = name + seq![':'] + tag;
    assert(f =~= name + (seq![':'] + tag));
    lemma_index_of_first_at(seq![':'] + tag, ':', 0);
    lemma_index_of_first_append(name, seq![':'] + tag, ':');
    assert(index_of_first(f, ':') == Some(name.len() as int));
    assert(f.take(name.len() as int) =~= name);
    assert(f.skip(name.len() + 1 as int) =~= tag);
    let p = seq!['/'] + f;
    assert(p =~= seq!['/'] + name + seq![':'] + tag);
    assert forall|j: int| 0 <= j < p.len() implies p[j] != '@' by {
        if j > 0 {
            let k = j - 1;
            assert(p[j] == f[k]);
            if k < name.len() {
                assert(f[k] == name[k]);
            } else if k == name.len() {
                assert(f[k] == (seq![':'] + tag)[0]);
            } else {
                assert(f[k] == tag[k - name.len() - 1]);
            }
        }
    }
    lemma_index_of_first_none(p, '@');
}

/// Law: for a reference whose path is `/name:tag`, with no `:` in the name
/// and no `@` anywhere, the derived accessors recover exactly the name, the
/// tag, and an empty digest.
pub proof fn lemma_accessors_round_trip(ir: ImageReference, name: Seq<char>, tag: Seq<char>)
    requires
        ir.path@ == seq!['/'] + name + seq![':'] + tag,
        forall|j: int| 0 <= j < name.len() ==> name[j] != ':',
        forall|j: int| 0 <= j < name.len() ==> name[j] != '@',
        forall|j: int| 0 <= j < tag.len() ==> tag[j] != '@',
    ensures
        ir.spec_name() == name,
        ir.spec_tag() == tag,
        ir.spec_digest() == Seq::<char>::empty(),
{
    lemma_reference_round_trip(name, tag);
    assert(ir.spec_fullname() =~= name + seq![':'] + tag);
    assert(ir.path@ =~= seq!['/'] + (name + seq![':'] + tag));
    assert(seq!['/'] + name + seq![':'] + tag =~= seq!['/'] + (name + seq![':'] + tag));
}

/// Law: a path remainder with no `:` has no explicit tag; the tag falls back
/// to `latest` and the name is the whole remainder.
pub proof fn lemma_tag_defaults_to_latest(fullname: Seq<char>)
    requires
        forall|j: int| 0 <= j < fullname.len() ==> fullname[j] != ':',
    ensures
        tag_of(fullname) == "latest"@,
        name_of(fullname) == fullname,
{
    lemma_index_of_first_none(fullname, ':');
}

/// Law: a path without `@` has an empty digest.
pub proof fn lemma_digest_empty_without_at(path: Seq<char>)
    requires
        forall|j: int| 0 <= j < path.len() ==> path[j] != '@',
    ensures
        digest_of(path) == Seq::<char>::empty(),
{
    lemma_index_of_first_none(path, '@');
}

} // verus!
