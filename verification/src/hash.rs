use vstd::prelude::*;

verus! {

/// A content digest string of the form `<algorithm>:<hex>`, identifying a blob.
#[derive(Debug)]
pub struct Hash(pub String);

impl Hash {
    /// The digest as a plain string, exactly the characters it holds.
    pub fn display(&self) -> (r: String)
        ensures
            r@ == self.0@,
    {
        self.0.clone()
    }
}

} // verus!
