//! The configuration of the hub: what its arguments and its configuration file say.
use crate::vm::zeroize_text;
use vstd::prelude::*;

verus! {

/// The arguments of the hub.
#[derive(Debug)]
pub struct Args {
    pub lattice_bucket: String,
    pub work_stream: String,
    pub nats_url: String,
    pub nats_credsfile: Option<String>,
    pub nats_sys_credsfile: Option<String>,
    pub config: String,
    pub encryption_key_file: Option<String>,
}

/// The configuration file.
pub struct Config {
    pub authorization: Option<Authorization>,
    pub lattices: Option<LatticeGenerator>,
}

/// The callouts that authorize users and hosts.
pub struct Authorization {
    pub user: AuthCallout,
    pub host: AuthCallout,
}

/// A web service to be asked.
pub struct Webhook {
    pub url: String,
}

/// A callout that authorizes connections to an account.
pub struct AuthCallout {
    pub account: String,
    pub signing_key_seed: String,
    pub encryption_key_seed: String,
    pub component: Option<Component>,
    pub webhook: Option<Webhook>,
    pub credsfile: String,
}

/// Where the bytes of a component come from.
pub enum ComponentSource {
    Nats(NatsSource),
    Oci(OciSource),
}

/// An image in a registry.
pub struct OciSource {
    pub image: String,
    pub username: Option<String>,
    pub password: Option<String>,
    pub insecure: bool,
}

/// A component.
pub struct Component {
    pub source: ComponentSource,
}

/// An object in an object store.
pub struct NatsSource {
    pub bucket: String,
    pub key: String,
}

/// The component that completes new lattices, and the keys it signs with.
pub struct LatticeGenerator {
    pub component: Component,
    pub secrets_backend: String,
    pub wasmcloud_system_account: String,
    pub operator_public_key: String,
}

/// A service that keeps secrets.
pub struct SecretBackend {
    pub name: String,
    pub subject: String,
    pub component: Component,
}

impl AuthCallout {
    /// Overwrites the seeds, which are empty then.
    pub fn erase_seeds(&mut self)
        ensures
            final(self).signing_key_seed@ == Seq::<char>::empty(),
            final(self).encryption_key_seed@ == Seq::<char>::empty(),
            final(self).account == old(self).account,
            final(self).component == old(self).component,
            final(self).webhook == old(self).webhook,
            final(self).credsfile == old(self).credsfile,
    {
        zeroize_text(&mut self.signing_key_seed);
        zeroize_text(&mut self.encryption_key_seed);
    }
}

impl Config {
    /// The keys that the lattice generator is to sign with: the public key of the operator and
    /// the system account, if a generator is configured.
    pub fn generator_keys(&self) -> (r: (Option<String>, Option<String>))
        ensures
            match self.lattices {
                Some(l) => r.0 matches Some(operator) && r.1 matches Some(system) && operator@
                    == l.operator_public_key@ && system@ == l.wasmcloud_system_account@,
                None => r.0 is None && r.1 is None,
            },
    {
        match &self.lattices {
            Some(l) => (
                Some(l.operator_public_key.clone()),
                Some(l.wasmcloud_system_account.clone()),
            ),
            None => (None, None),
        }
    }
}

} // verus!
