use vstd::prelude::*;

verus! {

/// An abstraction for an object-store bucket: the library only holds
/// its name; the transfers themselves happen at the application's
/// edge.
#[derive(Debug, Clone)]
pub struct Bucket {
    pub name: String,
}

impl Bucket {
    /// Create a handle for the bucket of this name.
    pub fn new(name: String) -> (r: Self)
        ensures
            r.name == name,
    {
        Bucket { name }
    }

    /// The name of this bucket.
    pub fn name(&self) -> (r: &str)
        ensures
            r@ == self.name@,
    {
        self.name.as_str()
    }
}

} // verus!
