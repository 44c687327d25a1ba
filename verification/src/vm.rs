//! What the hub offers to the components it runs: secrets by handle, and changes to the accounts
//! of the cluster.
use crate::control;
use crate::control::SecretValue;
use secrecy::Zeroize;
use vstd::prelude::*;
use wasmtime::component::ResourceTable;
use wasmtime::Engine;

verus! {

/// Where the instances of components come from.
#[derive(Clone, Copy, Debug, PartialEq, Eq, Structural)]
pub enum AllocationStrategy {
    /// Each is made when it is needed.
    OnDemand,
    /// A pool with its default limits.
    Pooling,
}

/// How the engine that runs components is set up.
#[derive(Clone, Copy, Debug, PartialEq, Eq, Structural)]
pub struct EngineSettings {
    pub component_model: bool,
    pub async_support: bool,
    pub epoch_interruption: bool,
    pub memory_init_cow: bool,
    pub strategy: AllocationStrategy,
}

/// The engine that runs components.
#[verifier::external_type_specification]
#[verifier::external_body]
pub struct ExEngine(wasmtime::Engine);

/// The settings that an engine was made with.
pub uninterp spec fn made_with(engine: Engine) -> EngineSettings;

/// `wasmtime::Engine::new`, with a configuration that has these settings and is the default one
/// otherwise: the engine is made with them. Whether there is one depends on the machine.
#[verifier::external_body]
fn new_engine(settings: EngineSettings) -> (r: Result<Engine, String>)
    ensures
        match r {
            Ok(engine) => made_with(engine) == settings,
            Err(_) => true,
        },
{
    let mut config = wasmtime::Config::default();
    config.wasm_component_model(settings.component_model);
    config.async_support(settings.async_support);
    config.epoch_interruption(settings.epoch_interruption);
    config.memory_init_cow(settings.memory_init_cow);
    config.allocation_strategy(match settings.strategy {
        AllocationStrategy::OnDemand => wasmtime::InstanceAllocationStrategy::OnDemand,
        AllocationStrategy::Pooling => wasmtime::InstanceAllocationStrategy::pooling(),
    });
    Engine::new(&config).map_err(|e| e.to_string())
}

/// How the engine that runs components is set up: components, run asynchronously and interrupted
/// by epochs, from a pool, with memory that is not shared copy-on-write.
pub open spec fn hub_settings() -> EngineSettings {
    EngineSettings {
        component_model: true,
        async_support: true,
        epoch_interruption: true,
        memory_init_cow: false,
        strategy: AllocationStrategy::Pooling,
    }
}

/// How the engine that runs components is set up.
pub fn engine_settings() -> (r: EngineSettings)
    ensures
        r == hub_settings(),
{
    EngineSettings {
        component_model: true,
        async_support: true,
        epoch_interruption: true,
        memory_init_cow: false,
        strategy: AllocationStrategy::Pooling,
    }
}

/// The engine that runs components, or the text of why the machine cannot have one.
pub fn configure_wasmtime() -> (r: Result<Engine, String>)
    ensures
        match r {
            Ok(engine) => made_with(engine) == hub_settings(),
            Err(_) => true,
        },
{
    new_engine(engine_settings())
}

/// The table of the resources that are handed out to a component.
#[verifier::external_type_specification]
#[verifier::external_body]
pub struct ExResourceTable(wasmtime::component::ResourceTable);

/// The secrets in a table of resources: under each handle of a secret, the key of the secret.
/// Resources of other types are not among them.
pub uninterp spec fn secret_keys(table: ResourceTable) -> Map<u32, Seq<char>>;

/// The handles in a table that are taken, by resources of whatever type.
pub uninterp spec fn handles(table: ResourceTable) -> Set<u32>;

/// The handles of the resources in a table to which other resources are attached as children.
pub uninterp spec fn parents(table: ResourceTable) -> Set<u32>;

/// `ResourceTable::new`: no resources.
#[verifier::external_body]
fn new_table() -> (r: ResourceTable)
    ensures
        (secret_keys(r) == Map::<u32, Seq<char>>::empty()),
        parents(r) == Set::<u32>::empty(),
        handles(r) == Set::<u32>::empty(),
{
    ResourceTable::new()
}

/// `ResourceTable::push` of the key of a secret: it gets a handle that is not taken; it fails if
/// every handle is.
#[verifier::external_body]
fn push_secret(table: &mut ResourceTable, key: String) -> (r: Result<u32, String>)
    ensures
        parents(*final(table)) == parents(*old(table)),
        match r {
            Ok(handle) => !handles(*old(table)).contains(handle) && handles(*final(table))
                == handles(*old(table)).insert(handle) && !secret_keys(*old(table)).contains_key(
                handle,
            ) && !parents(*old(table)).contains(handle) && secret_keys(*final(table))
                == secret_keys(*old(table)).insert(handle, key@),
            Err(e) => e@ == "resource table has no free keys"@ && (forall|h: u32| #[trigger]
                handles(*old(table)).contains(h)) && handles(*final(table)) == handles(*old(table))
                && secret_keys(*final(table)) == secret_keys(*old(table)),
        },
{
    match table.push(std::sync::Arc::new(key)) {
        Ok(resource) => Ok(resource.rep()),
        Err(e) => Err(e.to_string()),
    }
}

/// `ResourceTable::get` of the key of a secret: it is there if the handle is that of a secret.
#[verifier::external_body]
fn get_secret_key(table: &ResourceTable, handle: u32) -> (r: Option<String>)
    ensures
        match r {
            Some(key) => secret_keys(*table).contains_key(handle) && key@ == secret_keys(
                *table,
            )[handle],
            None => !secret_keys(*table).contains_key(handle),
        },
{
    let resource = wasmtime::component::Resource::<std::sync::Arc<String>>::new_own(handle);
    match table.get(&resource) {
        Ok(key) => Some(key.to_string()),
        Err(_) => None,
    }
}

/// Why the secret with a handle cannot be deleted from a table, if it cannot: the handle is not
/// taken, its resource has children, or its resource is no secret.
pub open spec fn delete_error(table: ResourceTable, handle: u32) -> Option<Seq<char>> {
    if !handles(table).contains(handle) {
        Some("resource not present"@)
    } else if parents(table).contains(handle) {
        Some("resource has children"@)
    } else if !secret_keys(table).contains_key(handle) {
        Some("resource is of another type"@)
    } else {
        None
    }
}

/// The handles that are taken once the deletion of a handle was tried: a resource without children
/// is gone, whether it is a secret or not.
pub open spec fn handles_after_delete(table: ResourceTable, handle: u32) -> Set<u32> {
    if parents(table).contains(handle) {
        handles(table)
    } else {
        handles(table).remove(handle)
    }
}

/// `ResourceTable::delete` of the key of a secret: it is gone if the handle is that of a secret
/// without children. If it is not, the error says that there is nothing, that it has children, or
/// that it is something else; something else without children is gone all the same.
#[verifier::external_body]
fn delete_secret(table: &mut ResourceTable, handle: u32) -> (r: Result<(), String>)
    ensures
        parents(*final(table)).subset_of(parents(*old(table))),
        handles(*final(table)) == handles_after_delete(*old(table), handle),
        r is Ok <==> secret_keys(*old(table)).contains_key(handle) && !parents(
            *old(table),
        ).contains(handle),
        match r {
            Ok(_) => secret_keys(*final(table)) == secret_keys(*old(table)).remove(handle)
                && delete_error(*old(table), handle) is None,
            Err(e) => secret_keys(*final(table)) == secret_keys(*old(table)) && delete_error(
                *old(table),
                handle,
            ) == Some(e@),
        },
{
    let resource = wasmtime::component::Resource::<std::sync::Arc<String>>::new_own(handle);
    match table.delete(resource) {
        Ok(_) => Ok(()),
        Err(e) => Err(e.to_string()),
    }
}

/// `zeroize` of a text: it is overwritten and empty.
#[verifier::external_body]
pub(crate) fn zeroize_text(s: &mut String)
    ensures
        final(s)@ == Seq::<char>::empty(),
{
    s.zeroize();
}

/// `zeroize` of bytes: they are overwritten and empty.
#[verifier::external_body]
fn zeroize_bytes(b: &mut Vec<u8>)
    ensures
        final(b)@ == Seq::<u8>::empty(),
{
    b.zeroize();
}

impl SecretValue {
    /// Overwrites the secret: what is left is empty.
    pub fn zeroize(&mut self)
        ensures
            final(self)@ == match old(self)@ {
                control::SecretValueView::String(_) =>
                    control::SecretValueView::String(Seq::empty()),
                control::SecretValueView::Bytes(_) =>
                    control::SecretValueView::Bytes(Seq::empty()),
            },
    {
        match self {
            SecretValue::String(s) => zeroize_text(s),
            SecretValue::Bytes(b) => zeroize_bytes(b),
        }
    }
}

/// Why a component did not get a secret.
#[derive(Debug, PartialEq, Eq)]
pub enum SecretsError {
    NotFound,
    Io(String),
}

/// A request to the system account of the cluster.
#[derive(Debug, PartialEq, Eq)]
pub struct SysRequest {
    pub subject: String,
    pub payload: String,
}

/// The subject on which the claims of an account are updated.
pub const CLAIMS_UPDATE: &'static str = "$SYS.REQ.CLAIMS.UPDATE";

/// The subject on which a key is deleted.
pub const KEYS_DELETE: &'static str = "$SYS.REQ.KEYS.DELETE";

/// What a running component has been given.
pub struct Ctx {
    pub table: ResourceTable,
    /// For how many seconds the component may run.
    pub timeout: u64,
    /// Whether there is a connection to the system account.
    pub sys_client: bool,
}

impl Ctx {
    /// A component that has been given nothing yet.
    pub fn new(timeout: u64, sys_client: bool) -> (r: Ctx)
        ensures
            (secret_keys(r.table) == Map::<u32, Seq<char>>::empty()),
            parents(r.table) == Set::<u32>::empty(),
            handles(r.table) == Set::<u32>::empty(),
            r.timeout == timeout,
            r.sys_client == sys_client,
    {
        Ctx { table: new_table(), timeout, sys_client }
    }

    /// Hands out the secret `key`, if there is one: the result is a handle to its key that was not
    /// taken. There is one unless every handle is taken.
    pub fn get(&mut self, key: String, found: bool) -> (r: Result<u32, SecretsError>)
        ensures
            final(self).timeout == old(self).timeout,
            final(self).sys_client == old(self).sys_client,
            parents(final(self).table) == parents(old(self).table),
            !found ==> r == Err::<u32, SecretsError>(SecretsError::NotFound),
            found ==> (r is Ok <==> exists|h: u32|
                !(#[trigger] handles(old(self).table).contains(h))),
            found ==> match r {
                Ok(handle) => {
                    &&& !handles(old(self).table).contains(handle)
                    &&& handles(final(self).table) == handles(old(self).table).insert(handle)
                    &&& !secret_keys(old(self).table).contains_key(handle)
                    &&& !parents(old(self).table).contains(handle)
                    &&& secret_keys(final(self).table) == secret_keys(old(self).table).insert(
                        handle,
                        key@,
                    )
                },
                Err(SecretsError::Io(e)) => e@ == "resource table has no free keys"@,
                Err(SecretsError::NotFound) => false,
            },
            r is Err ==> handles(final(self).table) == handles(old(self).table) && secret_keys(
                final(self).table,
            ) == secret_keys(old(self).table),
    {
        if !found {
            return Err(SecretsError::NotFound);
        }
        match push_secret(&mut self.table, key) {
            Ok(handle) => Ok(handle),
            Err(e) => Err(SecretsError::Io(e)),
        }
    }

    /// The key of the secret with a handle.
    pub fn key_of(&self, handle: u32) -> (r: Option<String>)
        ensures
            match r {
                Some(key) => secret_keys(self.table).contains_key(handle) && key@ == secret_keys(
                    self.table,
                )[handle],
                None => !secret_keys(self.table).contains_key(handle),
            },
    {
        get_secret_key(&self.table, handle)
    }

    /// The value of a secret, given what reading it gave: a secret that could not be read is an
    /// empty text.
    pub fn revealed(&self, read: Result<String, String>) -> (r: SecretValue)
        ensures
            r@ == control::SecretValueView::String(
                match read {
                    Ok(secret) => secret@,
                    Err(_) => Seq::empty(),
                },
            ),
    {
        match read {
            Ok(secret) => SecretValue::String(secret),
            Err(_) => SecretValue::String(String::new()),
        }
    }

    /// Takes a secret back, or says why it cannot be taken back.
    pub fn drop_secret(&mut self, handle: u32) -> (r: Result<(), String>)
        ensures
            final(self).timeout == old(self).timeout,
            final(self).sys_client == old(self).sys_client,
            parents(final(self).table).subset_of(parents(old(self).table)),
            handles(final(self).table) == handles_after_delete(old(self).table, handle),
            r is Ok <==> secret_keys(old(self).table).contains_key(handle) && !parents(
                old(self).table,
            ).contains(handle),
            match r {
                Ok(_) => delete_error(old(self).table, handle) is None,
                Err(e) => delete_error(old(self).table, handle) == Some(e@),
            },
            secret_keys(final(self).table) == if r is Ok {
                secret_keys(old(self).table).remove(handle)
            } else {
                secret_keys(old(self).table)
            },
    {
        delete_secret(&mut self.table, handle)
    }

    /// What to ask of the cluster to have the claims of an account updated.
    pub fn update(&self, account: String) -> (r: Result<SysRequest, String>)
        ensures
            if self.sys_client {
                r matches Ok(request) && request.subject@ == CLAIMS_UPDATE@ && request.payload
                    == account
            } else {
                r matches Err(e) && e@ == "NATS SYS client is not enabled"@
            },
    {
        self.sys_request(CLAIMS_UPDATE, account)
    }

    /// What to ask of the cluster to have a key deleted.
    pub fn delete_key(&self, key: String) -> (r: Result<SysRequest, String>)
        ensures
            if self.sys_client {
                r matches Ok(request) && request.subject@ == KEYS_DELETE@ && request.payload == key
            } else {
                r matches Err(e) && e@ == "NATS SYS client is not enabled"@
            },
    {
        self.sys_request(KEYS_DELETE, key)
    }

    /// A request to the system account, if there is a connection to it.
    fn sys_request(&self, subject: &str, payload: String) -> (r: Result<SysRequest, String>)
        ensures
            if self.sys_client {
                r matches Ok(request) && request.subject@ == subject@ && request.payload == payload
            } else {
                r matches Err(e) && e@ == "NATS SYS client is not enabled"@
            },
    {
        if !self.sys_client {
            return Err("NATS SYS client is not enabled".to_owned());
        }
        Ok(SysRequest { subject: subject.to_owned(), payload })
    }
}

} // verus!
