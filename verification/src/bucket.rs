//! Opening key-value buckets, and making those that do not exist.
use crate::text::concatenate;
use vstd::prelude::*;

verus! {

/// Why a bucket could not be opened.
#[derive(Debug, PartialEq, Eq)]
pub enum OpenError {
    /// There is no such bucket.
    GetBucket,
    /// Something else, as this text says.
    Other(String),
}

/// What to do about a bucket that was to be opened.
#[derive(Debug, PartialEq, Eq)]
pub enum BucketStep {
    /// It is open.
    Use,
    /// It is to be created.
    Create(String),
    /// It cannot be used, as this text says.
    Fail(String),
}

/// What to do about the bucket `name`, given how opening it went: a bucket that does not exist is
/// created, any other failure stands.
pub fn open_or_create(name: &str, opened: Result<(), OpenError>) -> (r: BucketStep)
    ensures
        match opened {
            Ok(_) => r is Use,
            Err(OpenError::GetBucket) => r matches BucketStep::Create(bucket) && bucket@ == name@,
            Err(OpenError::Other(e)) => r matches BucketStep::Fail(text) && text@
                == "Failed to get bucket: "@ + e@,
        },
{
    match opened {
        Ok(_) => BucketStep::Use,
        Err(OpenError::GetBucket) => BucketStep::Create(name.to_owned()),
        Err(OpenError::Other(e)) => BucketStep::Fail(
            concatenate("Failed to get bucket: ", e.as_str()),
        ),
    }
}

} // verus!
