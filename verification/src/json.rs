use vstd::prelude::*;

use crate::errors::OciError;
use crate::strutil::str_eq;

verus! {

/// A parsed JSON document. Numbers are kept only as their `u64` reading,
/// `None` when they have no such reading: the registry documents carry no
/// other numbers. Object fields keep the order in which the parser hands
/// them out.
#[derive(Debug)]
pub enum Json {
    Null,
    Bool(bool),
    Num(Option<u64>),
    Str(String),
    Arr(Vec<Json>),
    Obj(Vec<(String, Json)>),
}

#[verifier::external_type_specification]
#[verifier::external_body]
pub struct ExValue(serde_json::Value);

/// What `serde_json` yields on `s`, carried over into `Json` value for
/// value, or `None` when `s` is not valid JSON. The result is a function of
/// the input alone: object keys come back in `serde_json`'s map order, which
/// is sorted and deterministic.
pub uninterp spec fn json_of(s: Seq<char>) -> Option<Json>;

/// Relies on the variants of `serde_json::Value`: each is carried over to
/// the matching `Json` variant, one arm per variant, numbers through
/// `serde_json::Number::as_u64`.
#[verifier::external_body]
fn json_of_value(v: serde_json::Value) -> Json {
    match v {
        serde_json::Value::Null => Json::Null,
        serde_json::Value::Bool(b) => Json::Bool(b),
        serde_json::Value::Number(n) => Json::Num(n.as_u64()),
        serde_json::Value::String(s) => Json::Str(s),
        serde_json::Value::Array(a) => Json::Arr(a.into_iter().map(json_of_value).collect()),
        serde_json::Value::Object(m) => Json::Obj(
            m.into_iter().map(|(k, x)| (k, json_of_value(x))).collect(),
        ),
    }
}

/// Relies on `serde_json::from_str::<serde_json::Value>` to parse `s`; the
/// parsed tree is carried over by `json_of_value`.
#[verifier::external_body]
pub fn parse_json(s: &str) -> (r: Option<Json>)
    ensures
        r == json_of(s@),
{
    serde_json::from_str::<serde_json::Value>(s).ok().map(json_of_value)
}

/// The first value bound to `key` among an object's fields.
pub open spec fn obj_lookup(fields: Seq<(String, Json)>, key: Seq<char>) -> Option<Json>
    decreases fields.len(),
{
    if fields.len() == 0 {
        None
    } else if fields[0].0@ == key {
        Some(fields[0].1)
    } else {
        obj_lookup(fields.drop_first(), key)
    }
}

pub open spec fn opt_deref(o: Option<&Json>) -> Option<Json> {
    match o {
        Some(j) => Some(*j),
        None => None,
    }
}

/// Find `key` among an object's fields.
pub fn obj_get<'a>(fields: &'a Vec<(String, Json)>, key: &str) -> (r: Option<&'a Json>)
    ensures
        opt_deref(r) == obj_lookup(fields@, key@),
{
    let n = fields.len();
    let mut i: usize = 0;
    proof {
        assert(fields@.skip(0) =~= fields@);
    }
    while i < n
        invariant
            i <= n,
            n == fields@.len(),
            obj_lookup(fields@, key@) == obj_lookup(fields@.skip(i as int), key@),
        decreases n - i,
    {
        if str_eq(fields[i].0.as_str(), key) {
            proof {
                assert(fields@.skip(i as int)[0] == fields@[i as int]);
            }
            return Some(&fields[i].1);
        }
        proof {
            assert(fields@.skip(i as int)[0] == fields@[i as int]);
            assert(fields@.skip(i as int).drop_first() =~= fields@.skip(i as int + 1));
        }
        i = i + 1;
    }
    proof {
        assert(fields@.skip(i as int).len() == 0);
    }
    None
}

/// An optional string field: missing and null mean absent.
pub open spec fn opt_str_ok(o: Option<Json>) -> bool {
    match o {
        None => true,
        Some(Json::Null) => true,
        Some(Json::Str(_)) => true,
        Some(_) => false,
    }
}

pub open spec fn opt_str_matches(v: Option<String>, o: Option<Json>) -> bool {
    match o {
        None => v is None,
        Some(Json::Null) => v is None,
        Some(Json::Str(s)) => v matches Some(x) && x@ == s@,
        Some(_) => false,
    }
}

pub fn as_opt_string(o: Option<&Json>) -> (r: Result<Option<String>, OciError>)
    ensures
        match r {
            Ok(v) => opt_str_ok(opt_deref(o)) && opt_str_matches(v, opt_deref(o)),
            Err(e) => !opt_str_ok(opt_deref(o)) && e == OciError::Decode,
        },
{
    match o {
        None => Ok(None),
        Some(j) => match j {
            Json::Null => Ok(None),
            Json::Str(s) => Ok(Some(s.clone())),
            _ => Err(OciError::Decode),
        },
    }
}

/// A required string field.
pub fn as_string(o: Option<&Json>) -> (r: Result<String, OciError>)
    ensures
        match r {
            Ok(v) => opt_deref(o) matches Some(Json::Str(s)) && v@ == s@,
            Err(e) => !(opt_deref(o) matches Some(Json::Str(_))) && e == OciError::Decode,
        },
{
    match o {
        Some(j) => match j {
            Json::Str(s) => Ok(s.clone()),
            _ => Err(OciError::Decode),
        },
        None => Err(OciError::Decode),
    }
}

/// Every element of the array is a string.
pub open spec fn strlist_ok(a: Seq<Json>) -> bool {
    forall|i: int| 0 <= i < a.len() ==> a[i] is Str
}

pub open spec fn strlist_matches(v: Seq<String>, a: Seq<Json>) -> bool {
    v.len() == a.len() && (forall|i: int|
        #![trigger v[i]]
        #![trigger a[i]]
        0 <= i < a.len() ==> (a[i] matches Json::Str(s) && v[i]@ == s@))
}

/// The elements of a JSON array of strings.
pub fn strings_of_arr(a: &Vec<Json>) -> (r: Result<Vec<String>, OciError>)
    ensures
        match r {
            Ok(v) => strlist_ok(a@) && strlist_matches(v@, a@),
            Err(e) => !strlist_ok(a@) && e == OciError::Decode,
        },
{
    let mut v: Vec<String> = Vec::new();
    let n = a.len();
    let mut i: usize = 0;
    while i < n
        invariant
            i <= n,
            n == a@.len(),
            v@.len() == i,
            forall|k: int|
                #![trigger v@[k]]
                #![trigger a@[k]]
                0 <= k < i ==> (a@[k] matches Json::Str(s) && v@[k]@ == s@),
        decreases n - i,
    {
        match &a[i] {
            Json::Str(s) => {
                let ghost vold = v@;
                let c = s.clone();
                v.push(c);
                proof {
                    assert(v@[i as int]@ == s@);
                    assert(forall|k: int| 0 <= k < i ==> v@[k] == vold[k]);
                }
            },
            _ => {
                return Err(OciError::Decode);
            },
        }
        i = i + 1;
    }
    Ok(v)
}

pub open spec fn keys_match(v: Seq<String>, fs: Seq<(String, Json)>) -> bool {
    v.len() == fs.len() && (forall|i: int| 0 <= i < fs.len() ==> v[i]@ == fs[i].0@)
}

/// The keys of a JSON object, its values left aside.
pub fn keys_of_obj(fs: &Vec<(String, Json)>) -> (r: Vec<String>)
    ensures
        keys_match(r@, fs@),
{
    let mut v: Vec<String> = Vec::new();
    let n = fs.len();
    let mut i: usize = 0;
    while i < n
        invariant
            i <= n,
            n == fs@.len(),
            v@.len() == i,
            forall|k: int| 0 <= k < i ==> v@[k]@ == fs@[k].0@,
        decreases n - i,
    {
        v.push(fs[i].0.clone());
        i = i + 1;
    }
    v
}

/// Every value of the object is a string.
pub open spec fn strmap_ok(fs: Seq<(String, Json)>) -> bool {
    forall|i: int| 0 <= i < fs.len() ==> fs[i].1 is Str
}

pub open spec fn strmap_matches(v: Seq<(String, String)>, fs: Seq<(String, Json)>) -> bool {
    v.len() == fs.len() && (forall|i: int|
        #![trigger v[i]]
        #![trigger fs[i]]
        0 <= i < fs.len() ==> (v[i].0@ == fs[i].0@ && (fs[i].1 matches Json::Str(s) && v[i].1@
            == s@)))
}

/// An optional array-of-strings field: missing and null mean absent.
pub open spec fn opt_strlist_ok(o: Option<Json>) -> bool {
    match o {
        None => true,
        Some(Json::Null) => true,
        Some(Json::Arr(a)) => strlist_ok(a@),
        Some(_) => false,
    }
}

pub open spec fn opt_strlist_matches(v: Option<Vec<String>>, o: Option<Json>) -> bool {
    match o {
        None => v is None,
        Some(Json::Null) => v is None,
        Some(Json::Arr(a)) => v matches Some(x) && strlist_matches(x@, a@),
        Some(_) => false,
    }
}

pub fn as_opt_string_list(o: Option<&Json>) -> (r: Result<Option<Vec<String>>, OciError>)
    ensures
        match r {
            Ok(v) => opt_strlist_ok(opt_deref(o)) && opt_strlist_matches(v, opt_deref(o)),
            Err(e) => !opt_strlist_ok(opt_deref(o)) && e == OciError::Decode,
        },
{
    match o {
        None => Ok(None),
        Some(j) => match j {
            Json::Null => Ok(None),
            Json::Arr(a) => match strings_of_arr(a) {
                Ok(v) => Ok(Some(v)),
                Err(e) => Err(e),
            },
            _ => Err(OciError::Decode),
        },
    }
}

/// An optional object field read for its keys alone: missing and null mean
/// absent, and the values under the keys may be anything.
pub open spec fn opt_keys_ok(o: Option<Json>) -> bool {
    match o {
        None => true,
        Some(Json::Null) => true,
        Some(Json::Obj(_)) => true,
        Some(_) => false,
    }
}

pub open spec fn opt_keys_matches(v: Option<Vec<String>>, o: Option<Json>) -> bool {
    match o {
        None => v is None,
        Some(Json::Null) => v is None,
        Some(Json::Obj(fs)) => v matches Some(x) && keys_match(x@, fs@),
        Some(_) => false,
    }
}

pub fn as_opt_keys(o: Option<&Json>) -> (r: Result<Option<Vec<String>>, OciError>)
    ensures
        match r {
            Ok(v) => opt_keys_ok(opt_deref(o)) && opt_keys_matches(v, opt_deref(o)),
            Err(e) => !opt_keys_ok(opt_deref(o)) && e == OciError::Decode,
        },
{
    match o {
        None => Ok(None),
        Some(j) => match j {
            Json::Null => Ok(None),
            Json::Obj(fs) => Ok(Some(keys_of_obj(fs))),
            _ => Err(OciError::Decode),
        },
    }
}

/// An optional object-of-strings field: missing and null mean absent.
pub open spec fn opt_strmap_ok(o: Option<Json>) -> bool {
    match o {
        None => true,
        Some(Json::Null) => true,
        Some(Json::Obj(fs)) => strmap_ok(fs@),
        Some(_) => false,
    }
}

pub open spec fn opt_strmap_matches(v: Option<Vec<(String, String)>>, o: Option<Json>) -> bool {
    match o {
        None => v is None,
        Some(Json::Null) => v is None,
        Some(Json::Obj(fs)) => v matches Some(x) && strmap_matches(x@, fs@),
        Some(_) => false,
    }
}

pub fn as_opt_pairs(o: Option<&Json>) -> (r: Result<Option<Vec<(String, String)>>, OciError>)
    ensures
        match r {
            Ok(v) => opt_strmap_ok(opt_deref(o)) && opt_strmap_matches(v, opt_deref(o)),
            Err(e) => !opt_strmap_ok(opt_deref(o)) && e == OciError::Decode,
        },
{
    match o {
        None => Ok(None),
        Some(j) => match j {
            Json::Null => Ok(None),
            Json::Obj(fs) => match pairs_of_obj(fs) {
                Ok(v) => Ok(Some(v)),
                Err(e) => Err(e),
            },
            _ => Err(OciError::Decode),
        },
    }
}

/// The key/value pairs of a JSON object whose values are all strings.
pub fn pairs_of_obj(fs: &Vec<(String, Json)>) -> (r: Result<Vec<(String, String)>, OciError>)
    ensures
        match r {
            Ok(v) => strmap_ok(fs@) && strmap_matches(v@, fs@),
            Err(e) => !strmap_ok(fs@) && e == OciError::Decode,
        },
{
    let mut v: Vec<(String, String)> = Vec::new();
    let n = fs.len();
    let mut i: usize = 0;
    while i < n
        invariant
            i <= n,
            n == fs@.len(),
            v@.len() == i,
            forall|k: int|
                #![trigger v@[k]]
                #![trigger fs@[k]]
                0 <= k < i ==> (v@[k].0@ == fs@[k].0@ && (fs@[k].1 matches Json::Str(s)
                    && v@[k].1@ == s@)),
        decreases n - i,
    {
        match &fs[i].1 {
            Json::Str(s) => {
                let ghost vold = v@;
                let c = (fs[i].0.clone(), s.clone());
                v.push(c);
                proof {
                    assert(v@[i as int].0@ == fs@[i as int].0@);
                    assert(v@[i as int].1@ == s@);
                    assert(forall|k: int| 0 <= k < i ==> v@[k] == vold[k]);
                }
            },
            _ => {
                return Err(OciError::Decode);
            },
        }
        i = i + 1;
    }
    Ok(v)
}

} // verus!
