use crate::bucket::Bucket;
use vstd::prelude::*;

verus! {

/// All object-store buckets used by the application.
#[derive(Debug, Clone)]
pub struct Buckets {
    pub attachments: Bucket,
}

impl Buckets {
    /// Create all bucket handles under their fixed names.
    pub fn new() -> (r: Self)
        ensures
            r.attachments.name@ == "attachments"@,
    {
        Buckets { attachments: Bucket::new("attachments".to_owned()) }
    }

    /// The attachments bucket. It stores all message attachments.
    pub fn attachments(&self) -> (r: &Bucket)
        ensures
            r == &self.attachments,
    {
        &self.attachments
    }
}

} // verus!
