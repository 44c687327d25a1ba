//! The lattice generator: it makes the account of a new lattice, the keys that may sign for that
//! account, and the signed claims of both.
//!
//! The generator asks its host for random bytes, for two secrets and for the publication of the
//! signed claims. Between these it is a chain of values, each of which takes the next answer of
//! the host: [`Generator::create`], [`Started`], [`Drawn`], [`Operated`], [`Ready`], [`Signed`].
use crate::claims;
use crate::claims::{
    encode_account, insert_signing_key, new_account_claims, set_limits, set_tags, Limits, Scope,
};
use crate::control;
use crate::control::{
    Context, CreateLatticeResponse, GeneratedAccount, Lattice, LatticeLifecycleError,
    LifecycleErrorKind, SecretValue,
};
use crate::jwt;
use crate::jwt::encode_activation;
use crate::keys;
use crate::keys::KeyPair;
use crate::text::concatenate;
use nats_jwt_rs::Claims;
use nats_jwt_rs::account::Account;
use vstd::prelude::*;
use vstd::string::*;

verus! {

/// The limit that stands for no limit.
pub const UNLIMITED: i64 = -1;

/// An internal failure with a message.
pub open spec fn internal(message: Seq<char>) -> control::LatticeLifecycleErrorView {
    control::LatticeLifecycleErrorView {
        kind: LifecycleErrorKind::Internal,
        message: Some(message),
    }
}

/// An internal failure with a message.
fn internal_error(message: String) -> (r: LatticeLifecycleError)
    ensures
        r@ == internal(message@),
{
    LatticeLifecycleError { kind: LifecycleErrorKind::Internal, message: Some(message) }
}

/// The text of a secret that a store has revealed: it has to be there, to be text, and not to be
/// empty.
pub open spec fn secret_text(fetched: Result<SecretValue, String>) -> Result<
    Seq<char>,
    control::LatticeLifecycleErrorView,
> {
    match fetched {
        Err(e) => Err(internal("Failed to get operator key: "@ + e@)),
        Ok(SecretValue::Bytes(_)) => Err(internal("Operator key is not a string"@)),
        Ok(SecretValue::String(s)) => if s@.len() == 0 {
            Err(internal("Operator key is empty"@))
        } else {
            Ok(s@)
        },
    }
}

/// The text of a secret that a store has revealed.
pub fn get_secret(fetched: Result<SecretValue, String>) -> (r: Result<
    String,
    LatticeLifecycleError,
>)
    ensures
        match secret_text(fetched) {
            Ok(text) => r matches Ok(s) && s@ == text,
            Err(e) => r matches Err(error) && error@ == e,
        },
{
    match fetched {
        Err(e) => Err(internal_error(concatenate("Failed to get operator key: ", e.as_str()))),
        Ok(SecretValue::Bytes(_)) => Err(internal_error("Operator key is not a string".to_owned())),
        Ok(SecretValue::String(s)) => {
            if s.as_str().is_empty() {
                Err(internal_error("Operator key is empty".to_owned()))
            } else {
                Ok(s)
            }
        },
    }
}

/// The tags for additional metadata: each key and its value, with a colon between them.
pub open spec fn tags_of(pairs: Seq<(Seq<char>, Seq<char>)>) -> Seq<Seq<char>> {
    pairs.map_values(|p: (Seq<char>, Seq<char>)| p.0 + ":"@ + p.1)
}

/// The tags for additional metadata.
fn tags(pairs: &Vec<(String, String)>) -> (r: Vec<String>)
    ensures
        r.deep_view() == tags_of(pairs.deep_view()),
{
    let mut r: Vec<String> = Vec::new();
    let mut i: usize = 0;
    while i < pairs.len()
        invariant
            i <= pairs@.len(),
            r@.len() == i,
            forall|j: int|
                0 <= j < i ==> (#[trigger] r@[j])@ == pairs@[j].0@ + ":"@ + pairs@[j].1@,
        decreases pairs@.len() - i,
    {
        r.push(concatenate(concatenate(pairs[i].0.as_str(), ":").as_str(), pairs[i].1.as_str()));
        i = i + 1;
    }
    assert(r.deep_view() =~= tags_of(pairs.deep_view()));
    r
}

/// The limits of a lattice's account: none, but that bearer tokens are not allowed.
pub open spec fn account_limits() -> Limits {
    Limits {
        disallow_bearer: Some(true),
        imports: Some(UNLIMITED),
        exports: Some(UNLIMITED),
        leaf: Some(UNLIMITED),
        wildcard_exports: Some(true),
        conn: Some(UNLIMITED),
        subs: Some(UNLIMITED),
        data: Some(UNLIMITED),
        payload: Some(UNLIMITED),
        consumer: Some(UNLIMITED),
        disk_storage: Some(UNLIMITED),
        memory_storage: Some(UNLIMITED),
        streams: Some(UNLIMITED),
        max_ack_pending: Some(UNLIMITED),
        mem_max_stream_bytes: Some(UNLIMITED),
        disk_max_stream_bytes: Some(UNLIMITED),
        max_bytes_required: Some(false),
    }
}

/// The limits of a lattice's account.
fn limits() -> (r: Limits)
    ensures
        r == account_limits(),
{
    Limits {
        disallow_bearer: Some(true),
        imports: Some(UNLIMITED),
        exports: Some(UNLIMITED),
        leaf: Some(UNLIMITED),
        wildcard_exports: Some(true),
        conn: Some(UNLIMITED),
        subs: Some(UNLIMITED),
        data: Some(UNLIMITED),
        payload: Some(UNLIMITED),
        consumer: Some(UNLIMITED),
        disk_storage: Some(UNLIMITED),
        memory_storage: Some(UNLIMITED),
        streams: Some(UNLIMITED),
        max_ack_pending: Some(UNLIMITED),
        mem_max_stream_bytes: Some(UNLIMITED),
        disk_max_stream_bytes: Some(UNLIMITED),
        max_bytes_required: Some(false),
    }
}

/// What the users of the lattice `name` may do.
pub open spec fn user_scope(name: Seq<char>) -> claims::ScopeView {
    claims::ScopeView {
        role: "user"@,
        publish: seq![
            "wasmbus.cfg.{{account-name()}}.>"@,
            "wasmbus.evt.{{account-name()}}.>"@,
            "wasmbus.ctl.*."@ + name + ".>"@,
            "wadm.api.{{account-name()}}.>"@,
            "wasmcloud.secrets.>"@,
            "wasmcloud.lattice.list"@,
            "_INBOX.>"@,
        ],
        subscribe: seq![
            "wasmbus.cfg.{{account-name()}}.>"@,
            "wasmbus.evt.{{account-name()}}.>"@,
            "wasmbus.ctl.*.{{account-name()}}.>"@,
            "wadm.api.{{account-name()}}.>"@,
            "{{account-name()}}.*.wrpc.>"@,
            "wasmcloud.lattice.watch"@,
            "_INBOX.>"@,
        ],
        max_messages: UNLIMITED,
    }
}

/// What the components of a lattice may do.
pub open spec fn rpc_scope() -> claims::ScopeView {
    claims::ScopeView {
        role: "rpc"@,
        publish: seq!["{{account-name()}}.*.wrpc.>"@, "_INBOX.>"@, "$JS.>"@],
        subscribe: seq!["{{account-name()}}.*.wrpc.>"@, "_INBOX.>"@, "$JS.>"@],
        max_messages: UNLIMITED,
    }
}

/// What the users of the lattice `name` may do.
fn scope_of_users(name: &str) -> (r: Scope)
    ensures
        r@ == user_scope(name@),
{
    let publish: Vec<String> = vec![
        "wasmbus.cfg.{{account-name()}}.>".to_owned(),
        "wasmbus.evt.{{account-name()}}.>".to_owned(),
        concatenate(concatenate("wasmbus.ctl.*.", name).as_str(), ".>"),
        "wadm.api.{{account-name()}}.>".to_owned(),
        "wasmcloud.secrets.>".to_owned(),
        "wasmcloud.lattice.list".to_owned(),
        "_INBOX.>".to_owned(),
    ];
    let subscribe: Vec<String> = vec![
        "wasmbus.cfg.{{account-name()}}.>".to_owned(),
        "wasmbus.evt.{{account-name()}}.>".to_owned(),
        "wasmbus.ctl.*.{{account-name()}}.>".to_owned(),
        "wadm.api.{{account-name()}}.>".to_owned(),
        "{{account-name()}}.*.wrpc.>".to_owned(),
        "wasmcloud.lattice.watch".to_owned(),
        "_INBOX.>".to_owned(),
    ];
    assert(publish.deep_view() =~= user_scope(name@).publish);
    assert(subscribe.deep_view() =~= user_scope(name@).subscribe);
    Scope { role: "user".to_owned(), publish, subscribe, max_messages: UNLIMITED }
}

/// What the components of a lattice may do.
fn scope_of_components() -> (r: Scope)
    ensures
        r@ == rpc_scope(),
{
    let publish: Vec<String> = vec![
        "{{account-name()}}.*.wrpc.>".to_owned(),
        "_INBOX.>".to_owned(),
        "$JS.>".to_owned(),
    ];
    let subscribe: Vec<String> = vec![
        "{{account-name()}}.*.wrpc.>".to_owned(),
        "_INBOX.>".to_owned(),
        "$JS.>".to_owned(),
    ];
    assert(publish.deep_view() =~= rpc_scope().publish);
    assert(subscribe.deep_view() =~= rpc_scope().subscribe);
    Scope { role: "rpc".to_owned(), publish, subscribe, max_messages: UNLIMITED }
}

/// Whether an import carries requests to a service or messages of a stream.
#[derive(Clone, Copy, Debug, PartialEq, Eq, Structural)]
pub enum ExportType {
    Service,
    Stream,
}

/// A subject of the system account that a lattice's account uses, with the token that permits it.
pub struct Import {
    pub account: String,
    pub subject: String,
    pub local_subject: String,
    pub export_type: ExportType,
    pub token: String,
}

/// A subject of the system account that a lattice's account uses.
#[verifier::ext_equal]
pub struct ImportView {
    pub account: Seq<char>,
    pub subject: Seq<char>,
    pub local_subject: Seq<char>,
    pub export_type: ExportType,
}

impl View for Import {
    type V = ImportView;

    open spec fn view(&self) -> ImportView {
        ImportView {
            account: self.account@,
            subject: self.subject@,
            local_subject: self.local_subject@,
            export_type: self.export_type,
        }
    }
}

/// The import of a bus subject of the lattice `name`, which the system account exports under the
/// lattice's account.
pub open spec fn bus_import(
    system_account: Seq<char>,
    account: Seq<char>,
    bus: Seq<char>,
    name: Seq<char>,
) -> ImportView {
    ImportView {
        account: system_account,
        subject: account + "."@ + (bus + name + ".>"@),
        local_subject: bus + name + ".>"@,
        export_type: ExportType::Service,
    }
}

/// What the account of the lattice `name` imports from the system account.
pub open spec fn import_list(system_account: Seq<char>, account: Seq<char>, name: Seq<char>) -> Seq<
    ImportView,
> {
    seq![
        bus_import(system_account, account, "wasmbus.cfg."@, name),
        bus_import(system_account, account, "wasmbus.evt."@, name),
        bus_import(system_account, account, "wasmbus.ctl."@, name),
        ImportView {
            local_subject: "wasmcloud.secrets.>"@,
            ..bus_import(system_account, account, "wasmcloud.secrets."@, name)
        },
        ImportView {
            account: system_account,
            subject: "wasmcloud.lattice.list"@,
            local_subject: Seq::empty(),
            export_type: ExportType::Service,
        },
        ImportView {
            account: system_account,
            subject: "wasmcloud.lattice.watch"@,
            local_subject: Seq::empty(),
            export_type: ExportType::Stream,
        },
    ]
}

/// `import` carries a token by which the system account, signing with the key of `seed`, permits
/// `account` the import's subject.
pub open spec fn is_activated(import: Import, account: Seq<char>, seed: Seq<char>) -> bool {
    exists|iat: u64|
        import.token@ == #[trigger] jwt::activation_token(
            import.subject@,
            account,
            import.account@,
            import.subject@,
            seed,
            iat,
        )
}

/// An import with the token that permits it.
fn activate(
    system_account: &str,
    subject: String,
    local_subject: String,
    export_type: ExportType,
    account: &str,
    signer: &KeyPair,
) -> (r: Import)
    ensures
        r@ == (ImportView {
            account: system_account@,
            subject: subject@,
            local_subject: local_subject@,
            export_type,
        }),
        is_activated(r, account@, signer.seed_text()),
{
    let token = encode_activation(
        subject.as_str(),
        account,
        system_account,
        subject.as_str(),
        signer.seed().as_str(),
    );
    let r = Import {
        account: system_account.to_owned(),
        subject,
        local_subject,
        export_type,
        token,
    };
    proof {
        let iat = choose|iat: u64|
            r.token@ == #[trigger] jwt::activation_token(
                subject@,
                account@,
                system_account@,
                subject@,
                signer.seed_text(),
                iat,
            );
        assert(r.token@ == jwt::activation_token(
            r.subject@,
            account@,
            r.account@,
            r.subject@,
            signer.seed_text(),
            iat,
        ));
    }
    r
}

/// The import of a bus subject, with the token that permits it.
fn activate_bus(
    system_account: &str,
    account: &str,
    bus: &str,
    name: &str,
    signer: &KeyPair,
) -> (r: Import)
    ensures
        r@ == bus_import(system_account@, account@, bus@, name@),
        is_activated(r, account@, signer.seed_text()),
{
    let local = concatenate(concatenate(bus, name).as_str(), ".>");
    let subject = concatenate(concatenate(account, ".").as_str(), local.as_str());
    activate(system_account, subject, local, ExportType::Service, account, signer)
}

/// What the account of the lattice `name` imports from the system account, each import with a
/// token signed by the system account.
pub fn imports(system_account: &str, account: &str, name: &str, signer: &KeyPair) -> (r: Vec<
    Import,
>)
    ensures
        r@.map_values(|i: Import| i@) == import_list(system_account@, account@, name@),
        forall|i: int|
            0 <= i < r@.len() ==> is_activated(#[trigger] r@[i], account@, signer.seed_text()),
{
    let cfg = activate_bus(system_account, account, "wasmbus.cfg.", name, signer);
    let evt = activate_bus(system_account, account, "wasmbus.evt.", name, signer);
    let ctl = activate_bus(system_account, account, "wasmbus.ctl.", name, signer);
    let subject = concatenate(
        concatenate(account, ".").as_str(),
        concatenate(concatenate("wasmcloud.secrets.", name).as_str(), ".>").as_str(),
    );
    let secrets = activate(
        system_account,
        subject,
        "wasmcloud.secrets.>".to_owned(),
        ExportType::Service,
        account,
        signer,
    );
    let list = activate(
        system_account,
        "wasmcloud.lattice.list".to_owned(),
        String::new(),
        ExportType::Service,
        account,
        signer,
    );
    let watch = activate(
        system_account,
        "wasmcloud.lattice.watch".to_owned(),
        String::new(),
        ExportType::Stream,
        account,
        signer,
    );
    let r: Vec<Import> = vec![cfg, evt, ctl, secrets, list, watch];
    assert(r@.map_values(|i: Import| i@) =~= import_list(system_account@, account@, name@));
    r
}

/// The claims of the account of a lattice: tags of its additional metadata, its limits, and the
/// keys that may sign for it: its own, one for users and one for components.
pub open spec fn account_of(
    context: control::ContextView,
    account: Seq<char>,
    user: Seq<char>,
    rpc: Seq<char>,
) -> claims::AccountClaimsView {
    let name = context.lattice.metadata.name;
    claims::AccountClaimsView {
        name,
        subject: account,
        tags: match context.additional_metadata {
            Some(pairs) => Some(tags_of(pairs)),
            None => None,
        },
        limits: Some(account_limits()),
        signing_keys: seq![
            claims::SigningKeyView { key: account, scope: None },
            claims::SigningKeyView { key: user, scope: Some(user_scope(name)) },
            claims::SigningKeyView { key: rpc, scope: Some(rpc_scope()) },
        ],
    }
}

/// The lattice generator.
pub struct Generator {}

/// What the generator does first with a request to create a lattice.
pub enum Creation {
    /// The request is answered.
    Finished(Result<CreateLatticeResponse, LatticeLifecycleError>),
    /// An account is made for the lattice.
    Started(Started),
}

impl Generator {
    /// Starts to create a lattice. A lattice that has an account is complete as it is; otherwise
    /// the system account and the operator key have to be named.
    pub fn create(context: Context) -> (r: Creation)
        ensures
            if context.lattice.account is Some {
                r matches Creation::Finished(Ok(response)) && response@ == (
                control::CreateLatticeResponseView {
                    lattice: context.lattice@,
                    account: None,
                })
            } else if context.system_account is None {
                r matches Creation::Finished(Err(e)) && e@ == (
                control::LatticeLifecycleErrorView {
                    kind: LifecycleErrorKind::InvalidArgument,
                    message: Some("System account not provided"@),
                })
            } else if context.operator_key is None {
                r matches Creation::Finished(Err(e)) && e@ == (
                control::LatticeLifecycleErrorView {
                    kind: LifecycleErrorKind::InvalidArgument,
                    message: Some("Operator key not provided"@),
                })
            } else {
                r matches Creation::Started(s) && s.context() == context@
            },
    {
        if context.lattice.account.is_some() {
            return Creation::Finished(
                Ok(CreateLatticeResponse { lattice: context.lattice, account: None }),
            );
        }
        if context.system_account.is_none() {
            return Creation::Finished(
                Err(
                    LatticeLifecycleError {
                        kind: LifecycleErrorKind::InvalidArgument,
                        message: Some("System account not provided".to_owned()),
                    },
                ),
            );
        }
        if context.operator_key.is_none() {
            return Creation::Finished(
                Err(
                    LatticeLifecycleError {
                        kind: LifecycleErrorKind::InvalidArgument,
                        message: Some("Operator key not provided".to_owned()),
                    },
                ),
            );
        }
        Creation::Started(Started { context })
    }

    /// Updating a lattice changes nothing.
    pub fn update(context: Context) -> (r: Result<Lattice, LatticeLifecycleError>)
        ensures
            r matches Ok(lattice) && lattice == context.lattice,
    {
        Ok(context.lattice)
    }

    /// Deleting a lattice changes nothing.
    pub fn delete(lattice: Lattice) -> (r: Result<Lattice, LatticeLifecycleError>)
        ensures
            r matches Ok(l) && l == lattice,
    {
        Ok(lattice)
    }

    /// Adds two keys, made of raw bytes, to those that may sign for the account of the lattice
    /// `name`: one for users and one for components. The result is the seeds of the two.
    pub fn scoped_signers(
        account: &mut Claims<Account>,
        name: &str,
        user_raw: &[u8],
        rpc_raw: &[u8],
    ) -> (r: Vec<String>)
        requires
            user_raw@.len() == 32,
            rpc_raw@.len() == 32,
        ensures
            claims::account_claims(*final(account)) == claims::with_key(
                claims::with_key(
                    claims::account_claims(*old(account)),
                    (claims::SigningKeyView {
                        key: keys::account_key(user_raw@).0,
                        scope: Some(user_scope(name@)),
                    }),
                ),
                (claims::SigningKeyView {
                    key: keys::account_key(rpc_raw@).0,
                    scope: Some(rpc_scope()),
                }),
            ),
            r.deep_view() == seq![
                keys::account_key(user_raw@).1,
                keys::account_key(rpc_raw@).1,
            ],
            keys::key_of_seed(r@[0]@) is Ok,
            keys::key_of_seed(r@[0]@)->Ok_0 == keys::account_key(user_raw@),
            keys::key_of_seed(r@[1]@) is Ok,
            keys::key_of_seed(r@[1]@)->Ok_0 == keys::account_key(rpc_raw@),
            keys::account_key(user_raw@).0.len() == keys::PUBLIC_KEY_LENGTH,
            keys::account_key(rpc_raw@).0.len() == keys::PUBLIC_KEY_LENGTH,
            keys::account_key(user_raw@).1.len() == keys::SEED_LENGTH,
            keys::account_key(rpc_raw@).1.len() == keys::SEED_LENGTH,
    {
        let user_key = KeyPair::new_account(user_raw);
        let rpc_key = KeyPair::new_account(rpc_raw);
        insert_signing_key(account, user_key.public_key(), Some(scope_of_users(name)));
        insert_signing_key(account, rpc_key.public_key(), Some(scope_of_components()));
        let r: Vec<String> = vec![user_key.seed(), rpc_key.seed()];
        assert(r.deep_view() =~= seq![user_key.seed_text(), rpc_key.seed_text()]);
        r
    }
}

/// The public keys of the pairs whose seeds are given.
fn public_keys(seeds: &Vec<String>) -> (r: Vec<String>)
    requires
        forall|i: int| 0 <= i < seeds@.len() ==> keys::key_of_seed((#[trigger] seeds@[i])@) is Ok,
    ensures
        r@.len() == seeds@.len(),
        forall|i: int|
            0 <= i < r@.len() ==> (#[trigger] r@[i])@ == keys::key_of_seed(
                seeds@[i]@,
            )->Ok_0.0 && r@[i]@.len() == keys::PUBLIC_KEY_LENGTH,
{
    let mut r: Vec<String> = Vec::new();
    let mut i: usize = 0;
    while i < seeds.len()
        invariant
            i <= seeds@.len(),
            r@.len() == i,
            forall|j: int|
                0 <= j < seeds@.len() ==> keys::key_of_seed((#[trigger] seeds@[j])@) is Ok,
            forall|j: int|
                0 <= j < i ==> (#[trigger] r@[j])@ == keys::key_of_seed(seeds@[j]@)->Ok_0.0
                    && r@[j]@.len() == keys::PUBLIC_KEY_LENGTH,
        decreases seeds@.len() - i,
    {
        match KeyPair::from_seed(seeds[i].as_str()) {
            Ok(pair) => r.push(pair.public_key()),
            Err(_) => {
                assert(keys::key_of_seed(seeds@[i as int]@) is Ok);
            },
        }
        i = i + 1;
    }
    r
}

/// The creation of a lattice that needs an account: the host is to draw 32 random bytes twice.
pub struct Started {
    context: Context,
}

impl Started {
    #[verifier::type_invariant]
    spec fn complete(self) -> bool {
        &&& self.context.lattice.account is None
        &&& self.context.system_account is Some
        &&& self.context.operator_key is Some
    }

    /// What the generator was given.
    pub closed spec fn context(&self) -> control::ContextView {
        self.context@
    }

    /// Makes the account's key and a signing key of the bytes that were drawn.
    pub fn draw(self, account: &[u8], signing: &[u8]) -> (r: Drawn)
        requires
            account@.len() == 32,
            signing@.len() == 32,
        ensures
            r.context() == self.context(),
            r.account() == keys::account_key(account@),
            r.signing() == keys::account_key(signing@),
            r.account().0.len() == keys::PUBLIC_KEY_LENGTH,
            r.signing().0.len() == keys::PUBLIC_KEY_LENGTH,
    {
        proof {
            use_type_invariant(&self);
        }
        let account = KeyPair::new_account(account);
        let signing = KeyPair::new_account(signing);
        Drawn { context: self.context, account, signing }
    }
}

/// The creation of a lattice whose keys are made: the host is to fetch the secret of the operator.
pub struct Drawn {
    context: Context,
    account: KeyPair,
    signing: KeyPair,
}

impl Drawn {
    #[verifier::type_invariant]
    spec fn complete(self) -> bool {
        &&& self.context.lattice.account is None
        &&& self.context.system_account is Some
        &&& self.context.operator_key is Some
    }

    /// What the generator was given.
    pub closed spec fn context(&self) -> control::ContextView {
        self.context@
    }

    /// The public key and the seed of the account.
    pub closed spec fn account(&self) -> (Seq<char>, Seq<char>) {
        (self.account.public_text(), self.account.seed_text())
    }

    /// The public key and the seed of the signing key.
    pub closed spec fn signing(&self) -> (Seq<char>, Seq<char>) {
        (self.signing.public_text(), self.signing.seed_text())
    }

    /// The name of the operator's secret.
    pub fn operator_key(&self) -> (r: String)
        ensures
            self.context().operator_key == Some(r@),
    {
        proof {
            use_type_invariant(self);
        }
        match &self.context.operator_key {
            Some(key) => key.clone(),
            None => String::new(),
        }
    }

    /// Reads the operator's signing key from its secret.
    pub fn operator(self, fetched: Result<SecretValue, String>) -> (r: Result<
        Operated,
        LatticeLifecycleError,
    >)
        ensures
            match secret_text(fetched) {
                Err(e) => r matches Err(error) && error@ == e,
                Ok(seed) => match keys::key_of_seed(seed) {
                    Err(e) => r matches Err(error) && error@ == internal(
                        "Failed to create operator keypair: "@ + e,
                    ),
                    Ok(pair) => {
                        &&& r matches Ok(next)
                        &&& next.context() == self.context()
                        &&& next.account() == self.account()
                        &&& next.signing() == self.signing()
                        &&& next.operator() == pair
                    },
                },
            },
    {
        proof {
            use_type_invariant(&self);
        }
        let seed = match get_secret(fetched) {
            Ok(seed) => seed,
            Err(e) => return Err(e),
        };
        match KeyPair::from_seed(seed.as_str()) {
            Ok(operator) => Ok(
                Operated {
                    context: self.context,
                    account: self.account,
                    signing: self.signing,
                    operator,
                },
            ),
            Err(e) => Err(
                internal_error(concatenate("Failed to create operator keypair: ", e.as_str())),
            ),
        }
    }
}

/// The creation of a lattice that has the operator's key: the host is to fetch the secret of the
/// system account.
pub struct Operated {
    context: Context,
    account: KeyPair,
    signing: KeyPair,
    operator: KeyPair,
}

impl Operated {
    #[verifier::type_invariant]
    spec fn complete(self) -> bool {
        &&& self.context.lattice.account is None
        &&& self.context.system_account is Some
    }

    /// What the generator was given.
    pub closed spec fn context(&self) -> control::ContextView {
        self.context@
    }

    /// The public key and the seed of the account.
    pub closed spec fn account(&self) -> (Seq<char>, Seq<char>) {
        (self.account.public_text(), self.account.seed_text())
    }

    /// The public key and the seed of the signing key.
    pub closed spec fn signing(&self) -> (Seq<char>, Seq<char>) {
        (self.signing.public_text(), self.signing.seed_text())
    }

    /// The public key and the seed of the operator's signing key.
    pub closed spec fn operator(&self) -> (Seq<char>, Seq<char>) {
        (self.operator.public_text(), self.operator.seed_text())
    }

    /// The name of the system account's secret.
    pub fn system_account(&self) -> (r: String)
        ensures
            self.context().system_account == Some(r@),
    {
        proof {
            use_type_invariant(self);
        }
        match &self.context.system_account {
            Some(key) => key.clone(),
            None => String::new(),
        }
    }

    /// Reads the system account's key from its secret.
    pub fn system(self, fetched: Result<SecretValue, String>) -> (r: Result<
        Ready,
        LatticeLifecycleError,
    >)
        ensures
            match secret_text(fetched) {
                Err(e) => r matches Err(error) && error@ == e,
                Ok(seed) => match keys::key_of_seed(seed) {
                    Err(e) => r matches Err(error) && error@ == internal(
                        "Failed to create system account keypair: "@ + e,
                    ),
                    Ok(pair) => {
                        &&& r matches Ok(next)
                        &&& next.context() == self.context()
                        &&& next.account() == self.account()
                        &&& next.signing() == self.signing()
                        &&& next.operator() == self.operator()
                        &&& next.system() == pair
                    },
                },
            },
    {
        proof {
            use_type_invariant(&self);
        }
        let seed = match get_secret(fetched) {
            Ok(seed) => seed,
            Err(e) => return Err(e),
        };
        match KeyPair::from_seed(seed.as_str()) {
            Ok(system) => Ok(
                Ready {
                    context: self.context,
                    account: self.account,
                    signing: self.signing,
                    operator: self.operator,
                    system,
                },
            ),
            Err(e) => Err(
                internal_error(
                    concatenate("Failed to create system account keypair: ", e.as_str()),
                ),
            ),
        }
    }
}

/// The lattice with its new account, and that account.
pub open spec fn created(
    lattice: control::LatticeView,
    account: (Seq<char>, Seq<char>),
    user: (Seq<char>, Seq<char>),
    rpc: (Seq<char>, Seq<char>),
    signing: (Seq<char>, Seq<char>),
    encoded: Seq<char>,
) -> control::CreateLatticeResponseView {
    control::CreateLatticeResponseView {
        lattice: control::LatticeView {
            account: Some(account.0),
            signing_keys: Some(seq![user.0, rpc.0, signing.0]),
            ..lattice
        },
        account: Some(
            control::GeneratedAccountView {
                signing_keys: seq![user.1, rpc.1, signing.1],
                seed: account.1,
                encoded,
            },
        ),
    }
}

/// The signing key `i` of the lattice is the public key of the seed `i` of its account.
pub open spec fn keys_agree(response: control::CreateLatticeResponseView, i: int) -> bool {
    &&& response.account is Some
    &&& response.lattice.signing_keys is Some
    &&& keys::key_of_seed(response.account->Some_0.signing_keys[i]) is Ok
    &&& keys::key_of_seed(response.account->Some_0.signing_keys[i])->Ok_0.0
        == response.lattice.signing_keys->Some_0[i]
}

/// The keys of a lattice that was created, and the seeds of its account, have the lengths of all
/// keys and seeds; so none of them is empty.
pub open spec fn keys_are_complete(response: control::CreateLatticeResponseView) -> bool {
    &&& response.lattice.account matches Some(account) && account.len() == keys::PUBLIC_KEY_LENGTH
    &&& response.account matches Some(account) && account.seed.len() == keys::SEED_LENGTH
    &&& response.lattice.signing_keys is Some
    &&& response.lattice.signing_keys->Some_0.len() == 3
    &&& response.account->Some_0.signing_keys.len() == 3
    &&& forall|i: int|
        0 <= i < 3 ==> (#[trigger] response.lattice.signing_keys->Some_0[i]).len()
            == keys::PUBLIC_KEY_LENGTH
    &&& forall|i: int|
        0 <= i < 3 ==> (#[trigger] response.account->Some_0.signing_keys[i]).len()
            == keys::SEED_LENGTH
}

/// Creating the account of a lattice leaves the rest of the lattice as it is.
pub proof fn creation_keeps_the_rest(
    lattice: control::LatticeView,
    account: (Seq<char>, Seq<char>),
    user: (Seq<char>, Seq<char>),
    rpc: (Seq<char>, Seq<char>),
    signing: (Seq<char>, Seq<char>),
    encoded: Seq<char>,
)
    ensures
        ({
            let after = created(lattice, account, user, rpc, signing, encoded).lattice;
            &&& after.metadata == lattice.metadata
            &&& after.description == lattice.description
            &&& after.deletable == lattice.deletable
            &&& after.status == lattice.status
        }),
{
}

/// The creation of a lattice that has all its signers: the host is to draw 32 random bytes twice.
pub struct Ready {
    context: Context,
    account: KeyPair,
    signing: KeyPair,
    operator: KeyPair,
    system: KeyPair,
}

impl Ready {
    #[verifier::type_invariant]
    spec fn complete(self) -> bool {
        &&& self.context.lattice.account is None
        &&& self.context.system_account is Some
    }

    /// What the generator was given.
    pub closed spec fn context(&self) -> control::ContextView {
        self.context@
    }

    /// The public key and the seed of the account.
    pub closed spec fn account(&self) -> (Seq<char>, Seq<char>) {
        (self.account.public_text(), self.account.seed_text())
    }

    /// The public key and the seed of the signing key.
    pub closed spec fn signing(&self) -> (Seq<char>, Seq<char>) {
        (self.signing.public_text(), self.signing.seed_text())
    }

    /// The public key and the seed of the operator's signing key.
    pub closed spec fn operator(&self) -> (Seq<char>, Seq<char>) {
        (self.operator.public_text(), self.operator.seed_text())
    }

    /// The public key and the seed of the system account.
    pub closed spec fn system(&self) -> (Seq<char>, Seq<char>) {
        (self.system.public_text(), self.system.seed_text())
    }

    /// Makes the keys for users and components of the bytes that were drawn, and has the operator
    /// sign the claims of the account. The imports from the system account are made out, each with
    /// its token, but they are not among the claims.
    pub fn sign(self, user: &[u8], rpc: &[u8]) -> (r: Signed)
        requires
            user@.len() == 32,
            rpc@.len() == 32,
        ensures
            exists|iat: u64|
                r.response() == #[trigger] signed_response(
                    self.context(),
                    self.account(),
                    keys::account_key(user@),
                    keys::account_key(rpc@),
                    self.signing(),
                    self.operator().1,
                    iat,
                ),
            forall|i: int| 0 <= i < 3 ==> #[trigger] keys_agree(r.response(), i),
            keys_are_complete(r.response()),
    {
        proof {
            use_type_invariant(&self);
        }
        let name = self.context.lattice.metadata.name.clone();
        let account_public = self.account.public_key();
        let mut account = new_account_claims(name.as_str(), account_public.as_str());
        if let Some(pairs) = &self.context.additional_metadata {
            set_tags(&mut account, tags(pairs));
        }
        insert_signing_key(&mut account, account_public.clone(), None);
        set_limits(&mut account, limits());
        // The claims do without the imports.
        if let Some(system_account) = &self.context.system_account {
            let _imports = imports(
                system_account.as_str(),
                account_public.as_str(),
                name.as_str(),
                &self.system,
            );
        }
        let ghost unscoped = claims::account_claims(account)->Some_0;
        let mut seeds = Generator::scoped_signers(&mut account, name.as_str(), user, rpc);
        let ghost user_key = keys::account_key(user@);
        let ghost rpc_key = keys::account_key(rpc@);
        assert(seeds.deep_view().len() == 2);
        assert(seeds.deep_view()[0] == user_key.1 && seeds.deep_view()[1] == rpc_key.1);
        let signing_seed = self.signing.seed();
        seeds.push(signing_seed);
        assert(seeds.deep_view() =~= seq![user_key.1, rpc_key.1, self.signing.seed_text()]);
        assert forall|i: int| 0 <= i < seeds@.len() implies keys::key_of_seed(
            (#[trigger] seeds@[i])@,
        ) is Ok by {
            assert(i == 0 || i == 1 || i == 2);
        }
        let publics = public_keys(&seeds);
        let encoded = encode_account(&account, self.operator.seed().as_str());
        let seed = self.account.seed();
        proof {
            reveal_strlit("user");
            reveal_strlit("rpc");
            let own = claims::SigningKeyView { key: self.account.public_text(), scope: None };
            let for_users = claims::SigningKeyView {
                key: user_key.0,
                scope: Some(user_scope(name@)),
            };
            let for_components = claims::SigningKeyView {
                key: rpc_key.0,
                scope: Some(rpc_scope()),
            };
            assert(for_users.scope->Some_0.role.len() != for_components.scope->Some_0.role.len());
            assert(unscoped.signing_keys =~= seq![own]);
            assert(!seq![own].contains(for_users));
            assert(!seq![own].push(for_users).contains(for_components));
            assert(claims::account_claims(account)->Some_0 =~= account_of(
                self.context@,
                self.account.public_text(),
                user_key.0,
                rpc_key.0,
            ));
            assert(publics.deep_view() =~= seq![user_key.0, rpc_key.0, self.signing.public_text()]);
        }
        assert(publics@[2]@.len() == keys::PUBLIC_KEY_LENGTH);
        let mut lattice = self.context.lattice;
        lattice.account = Some(account_public);
        lattice.signing_keys = Some(publics);
        let account = Some(GeneratedAccount { signing_keys: seeds, seed, encoded });
        let r = Signed { response: CreateLatticeResponse { lattice, account } };
        proof {
            let claims = account_of(
                self.context@,
                self.account.public_text(),
                user_key.0,
                rpc_key.0,
            );
            let operator = self.operator.seed_text();
            let iat = choose|iat: u64|
                encoded@ == #[trigger] claims::account_token(claims, operator, iat);
            assert(r.response() =~= signed_response(
                self.context(),
                self.account(),
                keys::account_key(user@),
                keys::account_key(rpc@),
                self.signing(),
                self.operator().1,
                iat,
            ));
            assert forall|i: int| 0 <= i < 3 implies keys_agree(r.response(), i) by {
                assert(seeds.deep_view()[i] == seeds@[i]@);
                assert(publics.deep_view()[i] == publics@[i]@);
            }
        }
        r
    }
}

/// The response for a lattice whose account's claims are signed with the key of `operator` in the
/// second `iat`.
pub open spec fn signed_response(
    context: control::ContextView,
    account: (Seq<char>, Seq<char>),
    user: (Seq<char>, Seq<char>),
    rpc: (Seq<char>, Seq<char>),
    signing: (Seq<char>, Seq<char>),
    operator: Seq<char>,
    iat: u64,
) -> control::CreateLatticeResponseView {
    created(
        context.lattice,
        account,
        user,
        rpc,
        signing,
        claims::account_token(
            account_of(context, account.0, user.0, rpc.0),
            operator,
            iat,
        ),
    )
}

/// The creation of a lattice whose account is signed: the host is to publish the account's claims.
pub struct Signed {
    response: CreateLatticeResponse,
}

impl Signed {
    #[verifier::type_invariant]
    spec fn complete(self) -> bool {
        keys_are_complete(self.response@)
    }

    /// What the generator answers once the claims are published.
    pub closed spec fn response(&self) -> control::CreateLatticeResponseView {
        self.response@
    }

    /// The signed claims to be published.
    pub fn claims(&self) -> (r: String)
        ensures
            self.response().account is Some,
            r@ == self.response().account->Some_0.encoded,
    {
        proof {
            use_type_invariant(self);
        }
        match &self.response.account {
            Some(account) => account.encoded.clone(),
            None => String::new(),
        }
    }

    /// The answer, given how the publication went.
    pub fn published(self, outcome: Result<(), String>) -> (r: Result<
        CreateLatticeResponse,
        LatticeLifecycleError,
    >)
        ensures
            match outcome {
                Ok(_) => r matches Ok(response) && response@ == self.response()
                    && keys_are_complete(response@),
                Err(e) => r matches Err(error) && error@ == internal(
                    "Failed to update account: "@ + e@,
                ),
            },
    {
        proof {
            use_type_invariant(&self);
        }
        match outcome {
            Ok(_) => Ok(self.response),
            Err(e) => Err(internal_error(concatenate("Failed to update account: ", e.as_str()))),
        }
    }
}

} // verus!
