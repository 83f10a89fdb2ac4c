use vstd::prelude::*;

use crate::errors::OciError;
use crate::json::{
    as_string, json_of, obj_get, obj_lookup, parse_json, pairs_of_obj, strmap_matches, strmap_ok,
    Json,
};

verus! {

/// One content-addressed blob, as the older manifest reader modelled it.
#[derive(Debug)]
pub struct Media {
    pub media_type: String,
    pub size: u64,
    pub digest: crate::hash::Hash,
}

/// The older manifest reader's document: here the annotations are required.
#[derive(Debug)]
pub struct Manifest {
    pub schema_version: u8,
    pub config: Media,
    pub layers: Vec<Media>,
    pub annotations: Vec<(String, String)>,
}

/// The JSON shape of a `Media` entry.
pub open spec fn media_json_ok(j: Json) -> bool {
    match j {
        Json::Obj(fields) => {
            &&& obj_lookup(fields@, "mediaType"@) matches Some(Json::Str(_))
            &&& obj_lookup(fields@, "size"@) matches Some(Json::Num(Some(_)))
            &&& obj_lookup(fields@, "digest"@) matches Some(Json::Str(_))
        },
        _ => false,
    }
}

pub open spec fn media_matches(m: Media, j: Json) -> bool {
    match j {
        Json::Obj(fields) => {
            &&& obj_lookup(fields@, "mediaType"@) matches Some(Json::Str(s)) && m.media_type@
                == s@
            &&& obj_lookup(fields@, "size"@) matches Some(Json::Num(Some(n))) && m.size == n
            &&& obj_lookup(fields@, "digest"@) matches Some(Json::Str(d)) && m.digest.0@ == d@
        },
        _ => false,
    }
}

fn media_from_json(j: &Json) -> (r: Result<Media, OciError>)
    ensures
        match r {
            Ok(m) => media_json_ok(*j) && media_matches(m, *j),
            Err(e) => !media_json_ok(*j) && e == OciError::Decode,
        },
{
    match j {
        Json::Obj(fields) => {
            let media_type = match as_string(obj_get(fields, "mediaType")) {
                Ok(s) => s,
                Err(e) => {
                    return Err(e);
                },
            };
            let size: u64 = match obj_get(fields, "size") {
                Some(v) => match v {
                    Json::Num(Some(n)) => *n,
                    _ => {
                        return Err(OciError::Decode);
                    },
                },
                None => {
                    return Err(OciError::Decode);
                },
            };
            let digest = match as_string(obj_get(fields, "digest")) {
                Ok(s) => crate::hash::Hash(s),
                Err(e) => {
                    return Err(e);
                },
            };
            Ok(Media { media_type, size, digest })
        },
        _ => Err(OciError::Decode),
    }
}

/// The JSON shape of this module's `Manifest` document.
pub open spec fn manifest_json_ok(j: Json) -> bool {
    match j {
        Json::Obj(fields) => {
            &&& obj_lookup(fields@, "schemaVersion"@) matches Some(Json::Num(Some(n))) && n
                <= 255
            &&& obj_lookup(fields@, "config"@) matches Some(c) && media_json_ok(c)
            &&& obj_lookup(fields@, "layers"@) matches Some(Json::Arr(a)) && (forall|i: int|
                0 <= i < a@.len() ==> media_json_ok(#[trigger] a@[i]))
            &&& obj_lookup(fields@, "annotations"@) matches Some(Json::Obj(fs)) && strmap_ok(fs@)
        },
        _ => false,
    }
}

pub open spec fn manifest_matches(m: Manifest, j: Json) -> bool {
    match j {
        Json::Obj(fields) => {
            &&& obj_lookup(fields@, "schemaVersion"@) matches Some(Json::Num(Some(n)))
                && m.schema_version as u64 == n
            &&& obj_lookup(fields@, "config"@) matches Some(c) && media_matches(m.config, c)
            &&& obj_lookup(fields@, "layers"@) matches Some(Json::Arr(a)) && m.layers@.len()
                == a@.len() && (forall|i: int|
                0 <= i < a@.len() ==> media_matches(#[trigger] m.layers@[i], a@[i]))
            &&& obj_lookup(fields@, "annotations"@) matches Some(Json::Obj(fs)) && strmap_matches(
                m.annotations@,
                fs@,
            )
        },
        _ => false,
    }
}

/// Parse this module's manifest document from its JSON text.
#[verifier::loop_isolation(false)]
pub fn parse_manifest(content: &str) -> (r: Result<Manifest, OciError>)
    ensures
        match r {
            Ok(m) => json_of(content@) matches Some(j) && manifest_json_ok(j) && manifest_matches(
                m,
                j,
            ),
            Err(e) => {
                &&& !(json_of(content@) matches Some(j) && manifest_json_ok(j))
                &&& e == OciError::Decode
            },
        },
{
    let parsed = match parse_json(content) {
        Some(j) => j,
        None => {
            return Err(OciError::Decode);
        },
    };
    match &parsed {
        Json::Obj(fields) => {
            let schema_version: u8 = match obj_get(fields, "schemaVersion") {
                Some(v) => match v {
                    Json::Num(Some(n)) => {
                        if *n <= 255 {
                            *n as u8
                        } else {
                            return Err(OciError::Decode);
                        }
                    },
                    _ => {
                        return Err(OciError::Decode);
                    },
                },
                None => {
                    return Err(OciError::Decode);
                },
            };
            let config = match obj_get(fields, "config") {
                Some(v) => match media_from_json(v) {
                    Ok(m) => m,
                    Err(e) => {
                        return Err(e);
                    },
                },
                None => {
                    return Err(OciError::Decode);
                },
            };
            let layers = match obj_get(fields, "layers") {
                Some(v) => match v {
                    Json::Arr(a) => {
                        let mut ls: Vec<Media> = Vec::new();
                        let n = a.len();
                        let mut i: usize = 0;
                        while i < n
                            invariant
                                i <= n,
                                n == a@.len(),
                                ls@.len() == i,
                                forall|k: int|
                                    0 <= k < i ==> media_json_ok(#[trigger] a@[k])
                                        && media_matches(ls@[k], a@[k]),
                            decreases n - i,
                        {
                            let ghost lsold = ls@;
                            match media_from_json(&a[i]) {
                                Ok(m) => ls.push(m),
                                Err(e) => {
                                    proof {
                                        assert(!media_json_ok(a@[i as int]));
                                    }
                                    return Err(e);
                                },
                            }
                            proof {
                                assert(forall|k: int| 0 <= k < i ==> ls@[k] == lsold[k]);
                            }
                            i = i + 1;
                        }
                        ls
                    },
                    _ => {
                        return Err(OciError::Decode);
                    },
                },
                None => {
                    return Err(OciError::Decode);
                },
            };
            let annotations = match obj_get(fields, "annotations") {
                Some(v) => match v {
                    Json::Obj(fs) => match pairs_of_obj(fs) {
                        Ok(pairs) => pairs,
                        Err(e) => {
                            return Err(e);
                        },
                    },
                    _ => {
                        return Err(OciError::Decode);
                    },
                },
                None => {
                    return Err(OciError::Decode);
                },
            };
            Ok(Manifest { schema_version, config, layers, annotations })
        },
        _ => Err(OciError::Decode),
    }
}

} // verus!
