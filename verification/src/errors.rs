use vstd::prelude::*;

verus! {

/// The failures the core can report.
///
/// `ReferenceParse`: the image reference string is malformed.
/// `Auth`: the token endpoint was unreachable or rejected the request.
/// `Http`: a manifest or blob endpoint answered with a non-2xx status;
/// the status is kept, and the raw body where one could be read.
/// `Decode`: a JSON document or an archive stream did not match what was
/// expected of it.
#[derive(Debug)]
pub enum OciError {
    ReferenceParse,
    Auth,
    Http { status: u16, body: Option<String> },
    Decode,
}

} // verus!
