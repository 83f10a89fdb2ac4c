use vstd::prelude::*;

use crate::errors::OciError;
use crate::json::{
    as_opt_keys, as_opt_pairs, as_opt_string, as_opt_string_list, as_string, json_of, obj_get,
    obj_lookup, opt_keys_matches, opt_keys_ok, opt_str_matches, opt_str_ok, opt_strlist_matches,
    opt_strlist_ok, opt_strmap_matches, opt_strmap_ok, parse_json, strlist_ok, Json,
};
use crate::strutil::str_eq;

verus! {

#[derive(Debug, PartialEq, Eq, Structural)]
pub enum OS {
    Linux,
    Windows,
}

/// The label shown for each `OS` value.
pub open spec fn os_label(o: OS) -> Seq<char> {
    match o {
        OS::Linux => "Linux"@,
        OS::Windows => "Windows"@,
    }
}

impl OS {
    /// The label shown for this value.
    pub fn display(&self) -> (r: String)
        ensures
            r@ == os_label(*self),
    {
        match self {
            OS::Linux => String::from_str("Linux"),
            OS::Windows => String::from_str("Windows"),
        }
    }
}

#[derive(Debug, PartialEq, Eq, Structural)]
pub enum Architecture {
    Amd64,
    Aarch64,
}

/// The label shown for each `Architecture` value.
pub open spec fn arch_label(a: Architecture) -> Seq<char> {
    match a {
        Architecture::Amd64 => "Amd64"@,
        Architecture::Aarch64 => "Aarch64"@,
    }
}

impl Architecture {
    /// The label shown for this value.
    pub fn display(&self) -> (r: String)
        ensures
            r@ == arch_label(*self),
    {
        match self {
            Architecture::Amd64 => String::from_str("Amd64"),
            Architecture::Aarch64 => String::from_str("Aarch64"),
        }
    }
}

#[derive(Debug)]
pub enum RootFSType {
    Layers,
}

/// How the config document writes each `OS` value.
pub open spec fn os_of_json(j: Json) -> Option<OS> {
    match j {
        Json::Str(s) => if s@ == "linux"@ {
            Some(OS::Linux)
        } else if s@ == "windows"@ {
            Some(OS::Windows)
        } else {
            None
        },
        _ => None,
    }
}

fn os_from_json(j: &Json) -> (r: Result<OS, OciError>)
    ensures
        match r {
            Ok(o) => os_of_json(*j) == Some(o),
            Err(e) => os_of_json(*j) is None && e == OciError::Decode,
        },
{
    match j {
        Json::Str(s) => {
            if str_eq(s.as_str(), "linux") {
                Ok(OS::Linux)
            } else if str_eq(s.as_str(), "windows") {
                Ok(OS::Windows)
            } else {
                Err(OciError::Decode)
            }
        },
        _ => Err(OciError::Decode),
    }
}

/// How the config document writes each `Architecture` value.
pub open spec fn architecture_of_json(j: Json) -> Option<Architecture> {
    match j {
        Json::Str(s) => if s@ == "amd64"@ {
            Some(Architecture::Amd64)
        } else if s@ == "aarch64"@ {
            Some(Architecture::Aarch64)
        } else {
            None
        },
        _ => None,
    }
}

fn architecture_from_json(j: &Json) -> (r: Result<Architecture, OciError>)
    ensures
        match r {
            Ok(a) => architecture_of_json(*j) == Some(a),
            Err(e) => architecture_of_json(*j) is None && e == OciError::Decode,
        },
{
    match j {
        Json::Str(s) => {
            if str_eq(s.as_str(), "amd64") {
                Ok(Architecture::Amd64)
            } else if str_eq(s.as_str(), "aarch64") {
                Ok(Architecture::Aarch64)
            } else {
                Err(OciError::Decode)
            }
        },
        _ => Err(OciError::Decode),
    }
}

/// The optional free-form settings of the image: every field may be absent.
/// `exposed_ports` and `volumes` keep only the keys of their objects.
#[derive(Debug)]
pub struct Configuration {
    pub user: Option<String>,
    pub exposed_ports: Option<Vec<String>>,
    pub env: Option<Vec<String>>,
    pub entrypoint: Option<Vec<String>>,
    pub cmd: Option<Vec<String>>,
    pub volumes: Option<Vec<String>>,
    pub working_dir: Option<String>,
    pub labels: Option<Vec<(String, String)>>,
}

/// The root filesystem: the ordered diff digests and their layout kind.
#[derive(Debug)]
pub struct RootFS {
    pub diff_ids: Vec<crate::hash::Hash>,
    pub rootfs_type: RootFSType,
}

/// One build step of the image's history.
#[derive(Debug)]
pub struct History {
    pub created: String,
    pub created_by: String,
    pub empty_layer: bool,
}

/// The image configuration document.
#[derive(Debug)]
pub struct Config {
    pub created: String,
    pub author: Option<String>,
    pub architecture: Architecture,
    pub os: OS,
    pub config: Configuration,
    pub rootfs: RootFS,
    pub history: Vec<History>,
}

/// The fallback for a history entry's `empty_layer` field when the document
/// leaves it out.
pub fn default_as_false() -> (r: bool)
    ensures
        r == false,
{
    false
}

pub open spec fn configuration_json_ok(j: Json) -> bool {
    match j {
        Json::Obj(fs) => {
            &&& opt_str_ok(obj_lookup(fs@, "User"@))
            &&& opt_keys_ok(obj_lookup(fs@, "ExposedPorts"@))
            &&& opt_strlist_ok(obj_lookup(fs@, "Env"@))
            &&& opt_strlist_ok(obj_lookup(fs@, "Entrypoint"@))
            &&& opt_strlist_ok(obj_lookup(fs@, "Cmd"@))
            &&& opt_keys_ok(obj_lookup(fs@, "Volumes"@))
            &&& opt_str_ok(obj_lookup(fs@, "WorkingDir"@))
            &&& opt_strmap_ok(obj_lookup(fs@, "Labels"@))
        },
        _ => false,
    }
}

pub open spec fn configuration_matches(c: Configuration, j: Json) -> bool {
    match j {
        Json::Obj(fs) => {
            &&& opt_str_matches(c.user, obj_lookup(fs@, "User"@))
            &&& opt_keys_matches(c.exposed_ports, obj_lookup(fs@, "ExposedPorts"@))
            &&& opt_strlist_matches(c.env, obj_lookup(fs@, "Env"@))
            &&& opt_strlist_matches(c.entrypoint, obj_lookup(fs@, "Entrypoint"@))
            &&& opt_strlist_matches(c.cmd, obj_lookup(fs@, "Cmd"@))
            &&& opt_keys_matches(c.volumes, obj_lookup(fs@, "Volumes"@))
            &&& opt_str_matches(c.working_dir, obj_lookup(fs@, "WorkingDir"@))
            &&& opt_strmap_matches(c.labels, obj_lookup(fs@, "Labels"@))
        },
        _ => false,
    }
}

/// Read the `config` section out of its JSON document.
pub fn configuration_from_json(j: &Json) -> (r: Result<Configuration, OciError>)
    ensures
        match r {
            Ok(c) => configuration_json_ok(*j) && configuration_matches(c, *j),
            Err(e) => !configuration_json_ok(*j) && e == OciError::Decode,
        },
{
    match j {
        Json::Obj(fs) => {
            let user = match as_opt_string(obj_get(fs, "User")) {
                Ok(v) => v,
                Err(e) => {
                    return Err(e);
                },
            };
            let exposed_ports = match as_opt_keys(obj_get(fs, "ExposedPorts")) {
                Ok(v) => v,
                Err(e) => {
                    return Err(e);
                },
            };
            let env = match as_opt_string_list(obj_get(fs, "Env")) {
                Ok(v) => v,
                Err(e) => {
                    return Err(e);
                },
            };
            let entrypoint = match as_opt_string_list(obj_get(fs, "Entrypoint")) {
                Ok(v) => v,
                Err(e) => {
                    return Err(e);
                },
            };
            let cmd = match as_opt_string_list(obj_get(fs, "Cmd")) {
                Ok(v) => v,
                Err(e) => {
                    return Err(e);
                },
            };
            let volumes = match as_opt_keys(obj_get(fs, "Volumes")) {
                Ok(v) => v,
                Err(e) => {
                    return Err(e);
                },
            };
            let working_dir = match as_opt_string(obj_get(fs, "WorkingDir")) {
                Ok(v) => v,
                Err(e) => {
                    return Err(e);
                },
            };
            let labels = match as_opt_pairs(obj_get(fs, "Labels")) {
                Ok(v) => v,
                Err(e) => {
                    return Err(e);
                },
            };
            Ok(
                Configuration {
                    user,
                    exposed_ports,
                    env,
                    entrypoint,
                    cmd,
                    volumes,
                    working_dir,
                    labels,
                },
            )
        },
        _ => Err(OciError::Decode),
    }
}

/// Where the document writes the root filesystem's kind: under `type`, or
/// failing that under the field's own name.
pub open spec fn rootfs_type_lookup(fs: Seq<(String, Json)>) -> Option<Json> {
    match obj_lookup(fs, "type"@) {
        Some(v) => Some(v),
        None => obj_lookup(fs, "rootfs_type"@),
    }
}

pub open spec fn rootfs_json_ok(j: Json) -> bool {
    match j {
        Json::Obj(fs) => {
            &&& obj_lookup(fs@, "diff_ids"@) matches Some(Json::Arr(a)) && strlist_ok(a@)
            &&& rootfs_type_lookup(fs@) matches Some(Json::Str(s)) && s@ == "layers"@
        },
        _ => false,
    }
}

pub open spec fn rootfs_matches(r: RootFS, j: Json) -> bool {
    match j {
        Json::Obj(fs) => {
            &&& obj_lookup(fs@, "diff_ids"@) matches Some(Json::Arr(a)) && r.diff_ids@.len()
                == a@.len() && (forall|i: int|
                #![trigger r.diff_ids@[i]]
                #![trigger a@[i]]
                0 <= i < a@.len() ==> (a@[i] matches Json::Str(s) && r.diff_ids@[i].0@ == s@))
        },
        _ => false,
    }
}

/// Read the `rootfs` section out of its JSON document.
#[verifier::loop_isolation(false)]
pub fn rootfs_from_json(j: &Json) -> (r: Result<RootFS, OciError>)
    ensures
        match r {
            Ok(rf) => rootfs_json_ok(*j) && rootfs_matches(rf, *j),
            Err(e) => !rootfs_json_ok(*j) && e == OciError::Decode,
        },
{
    match j {
        Json::Obj(fs) => {
            let diff_ids = match obj_get(fs, "diff_ids") {
                Some(v) => match v {
                    Json::Arr(a) => {
                        let mut ids: Vec<crate::hash::Hash> = Vec::new();
                        let n = a.len();
                        let mut i: usize = 0;
                        while i < n
                            invariant
                                i <= n,
                                n == a@.len(),
                                ids@.len() == i,
                                forall|k: int|
                                    #![trigger ids@[k]]
                                    #![trigger a@[k]]
                                    0 <= k < i ==> (a@[k] matches Json::Str(s) && ids@[k].0@
                                        == s@),
                            decreases n - i,
                        {
                            let ghost idsold = ids@;
                            match &a[i] {
                                Json::Str(s) => {
                                    let h = crate::hash::Hash(s.clone());
                                    ids.push(h);
                                    proof {
                                        assert(ids@[i as int].0@ == s@);
                                        assert(forall|k: int|
                                            0 <= k < i ==> ids@[k] == idsold[k]);
                                    }
                                },
                                _ => {
                                    return Err(OciError::Decode);
                                },
                            }
                            i = i + 1;
                        }
                        ids
                    },
                    _ => {
                        return Err(OciError::Decode);
                    },
                },
                None => {
                    return Err(OciError::Decode);
                },
            };
            let type_field = match obj_get(fs, "type") {
                Some(v) => Some(v),
                None => obj_get(fs, "rootfs_type"),
            };
            match type_field {
                Some(v) => match v {
                    Json::Str(s) => {
                        if str_eq(s.as_str(), "layers") {
                            Ok(RootFS { diff_ids, rootfs_type: RootFSType::Layers })
                        } else {
                            Err(OciError::Decode)
                        }
                    },
                    _ => Err(OciError::Decode),
                },
                None => Err(OciError::Decode),
            }
        },
        _ => Err(OciError::Decode),
    }
}

pub open spec fn history_json_ok(j: Json) -> bool {
    match j {
        Json::Obj(fs) => {
            &&& obj_lookup(fs@, "created"@) matches Some(Json::Str(_))
            &&& obj_lookup(fs@, "created_by"@) matches Some(Json::Str(_))
            &&& match obj_lookup(fs@, "empty_layer"@) {
                None => true,
                Some(Json::Bool(_)) => true,
                Some(_) => false,
            }
        },
        _ => false,
    }
}

pub open spec fn history_matches(h: History, j: Json) -> bool {
    match j {
        Json::Obj(fs) => {
            &&& obj_lookup(fs@, "created"@) matches Some(Json::Str(s)) && h.created@ == s@
            &&& obj_lookup(fs@, "created_by"@) matches Some(Json::Str(s)) && h.created_by@ == s@
            &&& match obj_lookup(fs@, "empty_layer"@) {
                None => h.empty_layer == false,
                Some(Json::Bool(b)) => h.empty_layer == b,
                Some(_) => false,
            }
        },
        _ => false,
    }
}

/// Read one history entry out of its JSON document. A missing `empty_layer`
/// falls back to false, as the document format prescribes.
pub fn history_from_json(j: &Json) -> (r: Result<History, OciError>)
    ensures
        match r {
            Ok(h) => history_json_ok(*j) && history_matches(h, *j),
            Err(e) => !history_json_ok(*j) && e == OciError::Decode,
        },
{
    match j {
        Json::Obj(fs) => {
            let created = match as_string(obj_get(fs, "created")) {
                Ok(s) => s,
                Err(e) => {
                    return Err(e);
                },
            };
            let created_by = match as_string(obj_get(fs, "created_by")) {
                Ok(s) => s,
                Err(e) => {
                    return Err(e);
                },
            };
            let empty_layer: bool = match obj_get(fs, "empty_layer") {
                None => default_as_false(),
                Some(v) => match v {
                    Json::Bool(b) => *b,
                    _ => {
                        return Err(OciError::Decode);
                    },
                },
            };
            Ok(History { created, created_by, empty_layer })
        },
        _ => Err(OciError::Decode),
    }
}

/// The JSON shape of a `Config` document.
pub open spec fn config_json_ok(j: Json) -> bool {
    match j {
        Json::Obj(fields) => {
            &&& obj_lookup(fields@, "created"@) matches Some(Json::Str(_))
            &&& opt_str_ok(obj_lookup(fields@, "author"@))
            &&& obj_lookup(fields@, "architecture"@) matches Some(a) && architecture_of_json(
                a,
            ) is Some
            &&& obj_lookup(fields@, "os"@) matches Some(o) && os_of_json(o) is Some
            &&& obj_lookup(fields@, "config"@) matches Some(c) && configuration_json_ok(c)
            &&& obj_lookup(fields@, "rootfs"@) matches Some(r) && rootfs_json_ok(r)
            &&& obj_lookup(fields@, "history"@) matches Some(Json::Arr(hs)) && (forall|i: int|
                0 <= i < hs@.len() ==> history_json_ok(#[trigger] hs@[i]))
        },
        _ => false,
    }
}

/// `cfg` holds exactly the fields of the JSON document `j`.
pub open spec fn config_matches(cfg: Config, j: Json) -> bool {
    match j {
        Json::Obj(fields) => {
            &&& obj_lookup(fields@, "created"@) matches Some(Json::Str(s)) && cfg.created@ == s@
            &&& opt_str_matches(cfg.author, obj_lookup(fields@, "author"@))
            &&& obj_lookup(fields@, "architecture"@) matches Some(a) && architecture_of_json(a)
                == Some(cfg.architecture)
            &&& obj_lookup(fields@, "os"@) matches Some(o) && os_of_json(o) == Some(cfg.os)
            &&& obj_lookup(fields@, "config"@) matches Some(c) && configuration_matches(
                cfg.config,
                c,
            )
            &&& obj_lookup(fields@, "rootfs"@) matches Some(r) && rootfs_matches(cfg.rootfs, r)
            &&& obj_lookup(fields@, "history"@) matches Some(Json::Arr(hs)) && cfg.history@.len()
                == hs@.len() && (forall|i: int|
                0 <= i < hs@.len() ==> history_matches(#[trigger] cfg.history@[i], hs@[i]))
        },
        _ => false,
    }
}

/// Read a `Config` out of its JSON document.
#[verifier::loop_isolation(false)]
pub fn config_from_json(j: &Json) -> (r: Result<Config, OciError>)
    ensures
        match r {
            Ok(c) => config_json_ok(*j) && config_matches(c, *j),
            Err(e) => !config_json_ok(*j) && e == OciError::Decode,
        },
{
    match j {
        Json::Obj(fields) => {
            let created = match as_string(obj_get(fields, "created")) {
                Ok(s) => s,
                Err(e) => {
                    return Err(e);
                },
            };
            let author = match as_opt_string(obj_get(fields, "author")) {
                Ok(v) => v,
                Err(e) => {
                    return Err(e);
                },
            };
            let architecture = match obj_get(fields, "architecture") {
                Some(v) => match architecture_from_json(v) {
                    Ok(a) => a,
                    Err(e) => {
                        return Err(e);
                    },
                },
                None => {
                    return Err(OciError::Decode);
                },
            };
            let os = match obj_get(fields, "os") {
                Some(v) => match os_from_json(v) {
                    Ok(o) => o,
                    Err(e) => {
                        return Err(e);
                    },
                },
                None => {
                    return Err(OciError::Decode);
                },
            };
            let config = match obj_get(fields, "config") {
                Some(v) => match configuration_from_json(v) {
                    Ok(c) => c,
                    Err(e) => {
                        return Err(e);
                    },
                },
                None => {
                    return Err(OciError::Decode);
                },
            };
            let rootfs = match obj_get(fields, "rootfs") {
                Some(v) => match rootfs_from_json(v) {
                    Ok(rf) => rf,
                    Err(e) => {
                        return Err(e);
                    },
                },
                None => {
                    return Err(OciError::Decode);
                },
            };
            let history = match obj_get(fields, "history") {
                Some(v) => match v {
                    Json::Arr(hs) => {
                        let mut out: Vec<History> = Vec::new();
                        let n = hs.len();
                        let mut i: usize = 0;
                        while i < n
                            invariant
                                i <= n,
                                n == hs@.len(),
                                out@.len() == i,
                                forall|k: int|
                                    0 <= k < i ==> history_json_ok(#[trigger] hs@[k])
                                        && history_matches(out@[k], hs@[k]),
                            decreases n - i,
                        {
                            let ghost outold = out@;
                            match history_from_json(&hs[i]) {
                                Ok(h) => out.push(h),
                                Err(e) => {
                                    proof {
                                        assert(!history_json_ok(hs@[i as int]));
                                        assert(!config_json_ok(*j));
                                    }
                                    return Err(e);
                                },
                            }
                            proof {
                                assert(forall|k: int| 0 <= k < i ==> out@[k] == outold[k]);
                            }
                            i = i + 1;
                        }
                        out
                    },
                    _ => {
                        return Err(OciError::Decode);
                    },
                },
                None => {
                    return Err(OciError::Decode);
                },
            };
            Ok(Config { created, author, architecture, os, config, rootfs, history })
        },
        _ => Err(OciError::Decode),
    }
}

impl Config {
    /// Parse a config document from its JSON text: the text must be valid
    /// JSON of exactly this shape.
    pub fn parse(s: &str) -> (r: Result<Config, OciError>)
        ensures
            match r {
                Ok(c) => json_of(s@) matches Some(j) && config_json_ok(j) && config_matches(c, j),
                Err(e) => {
                    &&& !(json_of(s@) matches Some(j) && config_json_ok(j))
                    &&& e == OciError::Decode
                },
            },
    {
        match parse_json(s) {
            Some(j) => config_from_json(&j),
            None => Err(OciError::Decode),
        }
    }
}

} // verus!
