//! The hub's own secrets: texts that are kept sealed in a bucket.
use crate::bucket::{open_or_create, BucketStep, OpenError};
use crate::keys;
use crate::keys::XKey;
use crate::text;
use crate::text::{concatenate, from_utf8};
use vstd::prelude::*;
use vstd::string::*;

verus! {

/// The bucket that holds the secrets.
pub const SECRETS_BUCKET: &'static str = "WASMCLOUD_ACCOUNT_KEYS";

/// Seals secrets with a key, and opens them again with the same key.
pub struct SecretsClient {
    xkey: XKey,
}

/// The secret in what a bucket holds under a name, for the key with this seed and this public key.
pub open spec fn secret_in(
    seed: Seq<char>,
    public: Seq<char>,
    stored: Option<Seq<u8>>,
) -> Result<Seq<char>, Seq<char>> {
    match stored {
        None => Err("Secret not found"@),
        Some(sealed) => match keys::opened(seed, sealed, public) {
            Err(e) => Err("unable to decrypt secret :"@ + e),
            Ok(data) => if vstd::utf8::valid_utf8(data) {
                Ok(vstd::utf8::decode_utf8(data))
            } else {
                Err(text::utf8_error(data))
            },
        },
    }
}

impl SecretsClient {
    /// The seed of the key.
    pub closed spec fn seed(&self) -> Seq<char> {
        self.xkey.seed_text()
    }

    /// The public key.
    pub closed spec fn public(&self) -> Seq<char> {
        self.xkey.public_text()
    }

    /// A client that seals with `xkey`.
    pub fn new(xkey: XKey) -> (r: SecretsClient)
        ensures
            r.seed() == xkey.seed_text(),
            r.public() == xkey.public_text(),
    {
        SecretsClient { xkey }
    }

    /// What to do about the bucket of the secrets, given how opening it went.
    pub fn open_bucket(&self, opened: Result<(), OpenError>) -> (r: BucketStep)
        ensures
            match opened {
                Ok(_) => r is Use,
                Err(OpenError::GetBucket) => r matches BucketStep::Create(bucket) && bucket@
                    == SECRETS_BUCKET@,
                Err(OpenError::Other(e)) => r matches BucketStep::Fail(text) && text@
                    == "Failed to get bucket: "@ + e@,
            },
    {
        open_or_create(SECRETS_BUCKET, opened)
    }

    /// The bytes to be stored for the secret `data`. Reading them gives `data` back. They are a
    /// box, which is longer than `data`.
    pub fn set(&self, data: &str) -> (r: Vec<u8>)
        ensures
            secret_in(self.seed(), self.public(), Some(r@)) == Ok::<Seq<char>, Seq<char>>(data@),
            r@.len() == vstd::utf8::encode_utf8(data@).len() + keys::BOX_OVERHEAD,
            r@ != vstd::utf8::encode_utf8(data@),
    {
        let own = self.xkey.public_key();
        let r = self.xkey.seal(data.as_bytes(), &own);
        proof {
            vstd::utf8::encode_utf8_valid_utf8(data@);
            vstd::utf8::encode_utf8_decode_utf8(data@);
            assert(keys::opened(self.seed(), r@, self.public()) == Ok::<
                Seq<u8>,
                Seq<char>,
            >(vstd::utf8::encode_utf8(data@)));
        }
        r
    }

    /// The secret in the bytes that are stored, if any are.
    pub fn get(&self, stored: Option<&Vec<u8>>) -> (r: Result<String, String>)
        ensures
            ({
                let bytes = match stored {
                    Some(v) => Some(v@),
                    None => None,
                };
                match secret_in(self.seed(), self.public(), bytes) {
                    Ok(text) => r matches Ok(s) && s@ == text,
                    Err(e) => r matches Err(text) && text@ == e,
                }
            }),
    {
        let sealed = match stored {
            Some(v) => v,
            None => return Err("Secret not found".to_owned()),
        };
        let own = self.xkey.public_key();
        match self.xkey.open(sealed.as_slice(), &own) {
            Ok(data) => from_utf8(data.as_slice()),
            Err(e) => Err(concatenate("unable to decrypt secret :", e.as_str())),
        }
    }
}

} // verus!
