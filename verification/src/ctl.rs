//! The command line tool for lattices.
use crate::control;
use crate::control::{Lattice, LatticePhase, LatticeStatus, Metadata};
use crate::keys;
use crate::keys::KeyPair;
use crate::text;
use crate::text::{concatenate, trim};
use vstd::prelude::*;
use vstd::string::*;

verus! {

/// The file with the seed of the system account, in a directory of keys.
pub fn system_key_file(key_dir: &str) -> (r: String)
    ensures
        r@ == key_dir@ + "/keys/WASMCLOUD SYSTEM.nk"@,
{
    concatenate(key_dir, "/keys/WASMCLOUD SYSTEM.nk")
}

/// The file with the seed of the operator's signing key, in a directory of keys.
pub fn operator_key_file(key_dir: &str) -> (r: String)
    ensures
        r@ == key_dir@ + "/keys/operator-signing.nk"@,
{
    concatenate(key_dir, "/keys/operator-signing.nk")
}

/// The key whose seed is the text of a file, up to white space at its ends.
pub fn read_key(text: &str) -> (r: Result<KeyPair, String>)
    ensures
        match keys::key_of_seed(text::trimmed(text@)) {
            Ok(pair) => r matches Ok(k) && k.public_text() == pair.0 && k.seed_text() == pair.1,
            Err(e) => r matches Err(text) && text@ == e,
        },
{
    KeyPair::from_seed(trim(text).as_str())
}

/// A secret to be stored: its name and its value.
#[derive(Debug, PartialEq, Eq)]
pub struct NewSecret {
    pub name: String,
    pub value: String,
}

/// The secret to be stored for a key, given what reading it gave: the seed under the public key,
/// unless there is a secret already.
pub fn bootstrap(key: &KeyPair, existing: &Result<String, String>) -> (r: Option<NewSecret>)
    ensures
        match existing {
            Ok(_) => r is None,
            Err(_) => r matches Some(secret) && secret.name@ == key.public_text() && secret.value@
                == key.seed_text(),
        },
{
    match existing {
        Ok(_) => None,
        Err(_) => Some(NewSecret { name: key.public_key(), value: key.seed() }),
    }
}

/// The lattice in a request to add one: a name and nothing else.
pub fn new_lattice(name: String) -> (r: Lattice)
    ensures
        r@ == (control::LatticeView {
            metadata: control::MetadataView {
                name: name@,
                version: Seq::empty(),
                uid: Seq::empty(),
                labels: Seq::empty(),
                annotations: Seq::empty(),
            },
            account: None,
            signing_keys: None,
            description: None,
            deletable: false,
            status: LatticeStatus { phase: LatticePhase::Provisioning },
        }),
{
    let labels: Vec<(String, String)> = Vec::new();
    let annotations: Vec<(String, String)> = Vec::new();
    assert(labels.deep_view() =~= Seq::empty());
    assert(annotations.deep_view() =~= Seq::empty());
    Lattice {
        metadata: Metadata {
            name,
            version: String::new(),
            uid: String::new(),
            labels,
            annotations,
        },
        account: None,
        signing_keys: None,
        description: None,
        deletable: false,
        status: LatticeStatus { phase: LatticePhase::Provisioning },
    }
}

} // verus!
