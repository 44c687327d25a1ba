//! Signing keys and encryption keys in their text form, by way of the `nkeys` crate.
use vstd::prelude::*;

verus! {

/// The length of a public key in its text form.
pub const PUBLIC_KEY_LENGTH: usize = 56;

/// The length of a seed in its text form.
pub const SEED_LENGTH: usize = 58;

/// By how many bytes a box is longer than what it holds: its version, a nonce and a tag.
pub const BOX_OVERHEAD: usize = 44;

/// What `nkeys::KeyPair::from_seed` makes of a seed: the public key and the seed of the pair it
/// reads, or the text of its error.
pub uninterp spec fn key_of_seed(seed: Seq<char>) -> Result<(Seq<char>, Seq<char>), Seq<char>>;

/// The public key and the seed of the account key that `nkeys::KeyPair::new_from_raw` makes of
/// raw bytes.
pub uninterp spec fn account_key(raw: Seq<u8>) -> (Seq<char>, Seq<char>);

/// What `nkeys::XKey::from_seed` makes of a seed: the public key of the pair it reads, or the
/// text of its error.
pub uninterp spec fn curve_key_of_seed(seed: Seq<char>) -> Result<Seq<char>, Seq<char>>;

/// The text of the error that `nkeys::XKey::from_public_key` reports of a public key, if any.
pub uninterp spec fn curve_key_error(key: Seq<char>) -> Option<Seq<char>>;

/// What `nkeys::XKey::open` gives for a box, with the seed of the reader and the public key of
/// the sender: the contents, or the text of its error.
pub uninterp spec fn opened(
    reader: Seq<char>,
    sealed: Seq<u8>,
    sender: Seq<char>,
) -> Result<Seq<u8>, Seq<char>>;

/// A box from `sender` opens to `data` for whoever holds the secret of the public key
/// `recipient`.
pub open spec fn holds_for(
    sealed: Seq<u8>,
    sender: Seq<char>,
    recipient: Seq<char>,
    data: Seq<u8>,
) -> bool {
    forall|reader: Seq<char>|
        curve_key_of_seed(reader) == Ok::<Seq<char>, Seq<char>>(recipient) ==> #[trigger] opened(
            reader,
            sealed,
            sender,
        ) == Ok::<Seq<u8>, Seq<char>>(data)
}

/// `nkeys::KeyPair::from_seed`, then `public_key` and `seed` of the pair. The seed that a pair
/// reports is read as that same pair. The texts have the lengths of all keys and seeds.
#[verifier::external_body]
fn read_seed(seed: &str) -> (r: Result<(String, String), String>)
    ensures
        match r {
            Ok(pair) => key_of_seed(seed@) == Ok::<_, Seq<char>>((pair.0@, pair.1@)) && key_of_seed(
                pair.1@,
            ) == key_of_seed(seed@) && pair.0@.len() == PUBLIC_KEY_LENGTH && pair.1@.len()
                == SEED_LENGTH,
            Err(e) => key_of_seed(seed@) == Err::<(Seq<char>, Seq<char>), _>(e@),
        },
{
    match nkeys::KeyPair::from_seed(seed) {
        Ok(pair) => Ok((pair.public_key(), pair.seed().unwrap())),
        Err(e) => Err(e.to_string()),
    }
}

/// `nkeys::KeyPair::new_from_raw` for an account, which never fails, then `public_key` and
/// `seed` of the pair. The seed is read as that same pair. The texts have the lengths of all keys
/// and seeds.
#[verifier::external_body]
fn make_account_key(raw: &[u8]) -> (r: (String, String))
    requires
        raw@.len() == 32,
    ensures
        (r.0@, r.1@) == account_key(raw@),
        key_of_seed(r.1@) == Ok::<_, Seq<char>>((r.0@, r.1@)),
        r.0@.len() == PUBLIC_KEY_LENGTH,
        r.1@.len() == SEED_LENGTH,
{
    let bytes: [u8; 32] = raw.try_into().unwrap();
    let pair = nkeys::KeyPair::new_from_raw(nkeys::KeyPairType::Account, bytes).unwrap();
    (pair.public_key(), pair.seed().unwrap())
}

/// `nkeys::XKey::from_seed`, then `public_key` of the pair, which `from_public_key` accepts. The
/// text has the length of all public keys.
#[verifier::external_body]
fn read_curve_seed(seed: &str) -> (r: Result<String, String>)
    ensures
        match r {
            Ok(public) => curve_key_of_seed(seed@) == Ok::<_, Seq<char>>(public@)
                && curve_key_error(public@) is None && public@.len() == PUBLIC_KEY_LENGTH,
            Err(e) => curve_key_of_seed(seed@) == Err::<Seq<char>, _>(e@),
        },
{
    match nkeys::XKey::from_seed(seed) {
        Ok(pair) => Ok(pair.public_key()),
        Err(e) => Err(e.to_string()),
    }
}

/// `nkeys::XKey::from_public_key`: whether the text is a public encryption key.
#[verifier::external_body]
fn check_curve_key(key: &str) -> (r: Result<(), String>)
    ensures
        match r {
            Ok(_) => curve_key_error(key@) is None,
            Err(e) => curve_key_error(key@) == Some(e@),
        },
{
    match nkeys::XKey::from_public_key(key) {
        Ok(_) => Ok(()),
        Err(e) => Err(e.to_string()),
    }
}

/// `nkeys::XKey::seal`, which cannot fail for a pair with a secret. The box depends on a random
/// nonce; whoever holds the secret of the recipient's public key opens it with the sender's
/// public key and finds the data. The version, the nonce and the tag of the box come on top of the
/// data, which is not made shorter or longer.
#[verifier::external_body]
fn seal_box(seed: &str, data: &[u8], recipient: &str) -> (r: Vec<u8>)
    requires
        curve_key_of_seed(seed@) is Ok,
        curve_key_error(recipient@) is None,
    ensures
        holds_for(r@, curve_key_of_seed(seed@)->Ok_0, recipient@, data@),
        r@.len() == data@.len() + BOX_OVERHEAD,
{
    let recipient = nkeys::XKey::from_public_key(recipient).unwrap();
    nkeys::XKey::from_seed(seed).unwrap().seal(data, &recipient).unwrap()
}

/// `nkeys::XKey::open`.
#[verifier::external_body]
fn open_box(seed: &str, sealed: &[u8], sender: &str) -> (r: Result<Vec<u8>, String>)
    requires
        curve_key_of_seed(seed@) is Ok,
        curve_key_error(sender@) is None,
    ensures
        match r {
            Ok(data) => opened(seed@, sealed@, sender@) == Ok::<_, Seq<char>>(data@),
            Err(e) => opened(seed@, sealed@, sender@) == Err::<Seq<u8>, _>(e@),
        },
{
    let sender = nkeys::XKey::from_public_key(sender).unwrap();
    match nkeys::XKey::from_seed(seed).unwrap().open(sealed, &sender) {
        Ok(data) => Ok(data),
        Err(e) => Err(e.to_string()),
    }
}

/// A pair of signing keys.
pub struct KeyPair {
    seed: String,
    public: String,
}

impl KeyPair {
    #[verifier::type_invariant]
    spec fn readable(self) -> bool {
        &&& key_of_seed(self.seed@) == Ok::<_, Seq<char>>((self.public@, self.seed@))
        &&& self.public@.len() == PUBLIC_KEY_LENGTH
        &&& self.seed@.len() == SEED_LENGTH
    }

    /// The text of the seed.
    pub closed spec fn seed_text(&self) -> Seq<char> {
        self.seed@
    }

    /// The text of the public key.
    pub closed spec fn public_text(&self) -> Seq<char> {
        self.public@
    }

    /// The pair whose seed is `source`, or the text of what is wrong with it.
    pub fn from_seed(source: &str) -> (r: Result<KeyPair, String>)
        ensures
            match key_of_seed(source@) {
                Ok(pair) => r matches Ok(k) && k.public_text() == pair.0 && k.seed_text() == pair.1
                    && pair.0.len() == PUBLIC_KEY_LENGTH && pair.1.len() == SEED_LENGTH,
                Err(e) => r matches Err(text) && text@ == e,
            },
    {
        match read_seed(source) {
            Ok(pair) => Ok(KeyPair { public: pair.0, seed: pair.1 }),
            Err(e) => Err(e),
        }
    }

    /// The account key made of 32 raw bytes.
    pub fn new_account(raw: &[u8]) -> (r: KeyPair)
        requires
            raw@.len() == 32,
        ensures
            (r.public_text(), r.seed_text()) == account_key(raw@),
            key_of_seed(r.seed_text()) == Ok::<_, Seq<char>>((r.public_text(), r.seed_text())),
            r.public_text().len() == PUBLIC_KEY_LENGTH,
            r.seed_text().len() == SEED_LENGTH,
    {
        let pair = make_account_key(raw);
        KeyPair { public: pair.0, seed: pair.1 }
    }

    /// The public key.
    pub fn public_key(&self) -> (r: String)
        ensures
            r@ == self.public_text(),
            r@.len() == PUBLIC_KEY_LENGTH,
    {
        proof {
            use_type_invariant(self);
        }
        self.public.clone()
    }

    /// The seed. Reading it gives this pair again.
    pub fn seed(&self) -> (r: String)
        ensures
            r@ == self.seed_text(),
            key_of_seed(r@) == Ok::<_, Seq<char>>((self.public_text(), self.seed_text())),
            r@.len() == SEED_LENGTH,
    {
        proof {
            use_type_invariant(self);
        }
        self.seed.clone()
    }
}

/// A pair of encryption keys.
pub struct XKey {
    seed: String,
    public: String,
}

impl XKey {
    #[verifier::type_invariant]
    spec fn readable(self) -> bool {
        &&& curve_key_of_seed(self.seed@) == Ok::<_, Seq<char>>(self.public@)
        &&& curve_key_error(self.public@) is None
    }

    /// The text of the seed.
    pub closed spec fn seed_text(&self) -> Seq<char> {
        self.seed@
    }

    /// The text of the public key.
    pub closed spec fn public_text(&self) -> Seq<char> {
        self.public@
    }

    /// The pair whose seed is `source`, or the text of what is wrong with it.
    pub fn from_seed(source: &str) -> (r: Result<XKey, String>)
        ensures
            match curve_key_of_seed(source@) {
                Ok(public) => r matches Ok(k) && k.public_text() == public && k.seed_text()
                    == source@ && public.len() == PUBLIC_KEY_LENGTH,
                Err(e) => r matches Err(text) && text@ == e,
            },
    {
        match read_curve_seed(source) {
            Ok(public) => Ok(XKey { public, seed: source.to_owned() }),
            Err(e) => Err(e),
        }
    }

    /// The public half of the pair.
    pub fn public_key(&self) -> (r: PublicXKey)
        ensures
            r.text() == self.public_text(),
            curve_key_of_seed(self.seed_text()) == Ok::<_, Seq<char>>(self.public_text()),
    {
        proof {
            use_type_invariant(self);
        }
        PublicXKey { key: self.public.clone() }
    }

    /// `data` in a box for `recipient`: with the recipient's secret and the public key of this
    /// pair, the box opens and holds `data`. It is longer than `data`.
    pub fn seal(&self, data: &[u8], recipient: &PublicXKey) -> (r: Vec<u8>)
        ensures
            holds_for(r@, self.public_text(), recipient.text(), data@),
            r@.len() == data@.len() + BOX_OVERHEAD,
    {
        proof {
            use_type_invariant(self);
            use_type_invariant(recipient);
        }
        seal_box(self.seed.as_str(), data, recipient.key.as_str())
    }

    /// The contents of a box from `sender` for this pair, or the text of what is wrong with it.
    pub fn open(&self, sealed: &[u8], sender: &PublicXKey) -> (r: Result<Vec<u8>, String>)
        ensures
            match opened(self.seed_text(), sealed@, sender.text()) {
                Ok(data) => r matches Ok(d) && d@ == data,
                Err(e) => r matches Err(text) && text@ == e,
            },
    {
        proof {
            use_type_invariant(self);
            use_type_invariant(sender);
        }
        open_box(self.seed.as_str(), sealed, sender.key.as_str())
    }
}

/// The public half of a pair of encryption keys.
pub struct PublicXKey {
    key: String,
}

impl PublicXKey {
    #[verifier::type_invariant]
    spec fn readable(self) -> bool {
        curve_key_error(self.key@) is None
    }

    /// The text of the key.
    pub closed spec fn text(&self) -> Seq<char> {
        self.key@
    }

    /// The public key written as `source`, or the text of what is wrong with it.
    pub fn from_public_key(source: &str) -> (r: Result<PublicXKey, String>)
        ensures
            match curve_key_error(source@) {
                None => r matches Ok(k) && k.text() == source@,
                Some(e) => r matches Err(text) && text@ == e,
            },
    {
        match check_curve_key(source) {
            Ok(_) => Ok(PublicXKey { key: source.to_owned() }),
            Err(e) => Err(e),
        }
    }
}

} // verus!
