//! The claims of an account, held by the `nats_jwt_rs` crate.
use crate::keys;
use nats_jwt_rs::Claims;
use nats_jwt_rs::account::Account;
use vstd::prelude::*;

verus! {

/// Claims of the `nats_jwt_rs` crate.
#[verifier::external_type_specification]
#[verifier::external_body]
#[verifier::reject_recursive_types(T)]
pub struct ExClaims<T>(nats_jwt_rs::Claims<T>);

/// What the claims of an account say beside the name and subject.
#[verifier::external_type_specification]
#[verifier::external_body]
pub struct ExAccount(nats_jwt_rs::account::Account);

/// The limits of an account.
#[derive(Clone, Copy, Debug, PartialEq, Eq, Structural)]
pub struct Limits {
    pub disallow_bearer: Option<bool>,
    pub imports: Option<i64>,
    pub exports: Option<i64>,
    pub leaf: Option<i64>,
    pub wildcard_exports: Option<bool>,
    pub conn: Option<i64>,
    pub subs: Option<i64>,
    pub data: Option<i64>,
    pub payload: Option<i64>,
    pub consumer: Option<i64>,
    pub disk_storage: Option<i64>,
    pub memory_storage: Option<i64>,
    pub streams: Option<i64>,
    pub max_ack_pending: Option<i64>,
    pub mem_max_stream_bytes: Option<i64>,
    pub disk_max_stream_bytes: Option<i64>,
    pub max_bytes_required: Option<bool>,
}

/// What the users signed for by a scoped key may do: the subjects they may publish to and
/// subscribe to, and how many responses they may send to a message.
pub struct Scope {
    pub role: String,
    pub publish: Vec<String>,
    pub subscribe: Vec<String>,
    pub max_messages: i64,
}

/// What a [`Scope`] says.
#[verifier::ext_equal]
pub struct ScopeView {
    pub role: Seq<char>,
    pub publish: Seq<Seq<char>>,
    pub subscribe: Seq<Seq<char>>,
    pub max_messages: i64,
}

impl View for Scope {
    type V = ScopeView;

    open spec fn view(&self) -> ScopeView {
        ScopeView {
            role: self.role@,
            publish: self.publish.deep_view(),
            subscribe: self.subscribe.deep_view(),
            max_messages: self.max_messages,
        }
    }
}

impl DeepView for Scope {
    type V = ScopeView;

    open spec fn deep_view(&self) -> ScopeView {
        self@
    }
}

/// A key that may sign for an account, and the scope of what it signs, if it has one.
#[verifier::ext_equal]
pub struct SigningKeyView {
    pub key: Seq<char>,
    pub scope: Option<ScopeView>,
}

/// What the claims of an account hold.
#[verifier::ext_equal]
pub struct AccountClaimsView {
    pub name: Seq<char>,
    pub subject: Seq<char>,
    pub tags: Option<Seq<Seq<char>>>,
    pub limits: Option<Limits>,
    pub signing_keys: Seq<SigningKeyView>,
}

/// What the claims hold, if they hold nothing else: whatever [`AccountClaimsView`] does not
/// mention is as `Account::new_claims` leaves it, a limit that it does not mention is absent, and
/// a scoped key is scoped by its own text and by what [`ScopeView`] mentions alone.
pub uninterp spec fn account_claims(claims: Claims<Account>) -> Option<AccountClaimsView>;

/// The token of `Claims::<Account>::encode` for claims that hold `claims` and nothing else, with
/// the key of a seed in the second `iat`.
pub uninterp spec fn account_token(claims: AccountClaimsView, seed: Seq<char>, iat: u64) -> Seq<
    char,
>;

/// `keys` with `key` at the end, unless it is among them.
pub open spec fn with_signing_key(keys: Seq<SigningKeyView>, key: SigningKeyView) -> Seq<
    SigningKeyView,
> {
    if keys.contains(key) {
        keys
    } else {
        keys.push(key)
    }
}

/// What claims hold once `key` is inserted among their signing keys. Claims that hold more than
/// [`AccountClaimsView`] mentions still do.
pub open spec fn with_key(claims: Option<AccountClaimsView>, key: SigningKeyView) -> Option<
    AccountClaimsView,
> {
    match claims {
        Some(c) => Some(
            AccountClaimsView { signing_keys: with_signing_key(c.signing_keys, key), ..c },
        ),
        None => None,
    }
}

/// `Account::new_claims`: claims with a name and a subject and nothing else.
#[verifier::external_body]
pub(crate) fn new_account_claims(name: &str, subject: &str) -> (r: Claims<Account>)
    ensures
        account_claims(r) == Some(
            (AccountClaimsView {
                name: name@,
                subject: subject@,
                tags: None,
                limits: None,
                signing_keys: Seq::empty(),
            }),
        ),
{
    Account::new_claims(name.to_string(), subject.to_string())
}

/// Sets the tags among the generic fields of the account.
#[verifier::external_body]
pub(crate) fn set_tags(claims: &mut Claims<Account>, tags: Vec<String>)
    requires
        account_claims(*old(claims)) is Some,
    ensures
        account_claims(*final(claims)) == Some(
            (AccountClaimsView {
                tags: Some(tags.deep_view()),
                ..account_claims(*old(claims))->Some_0
            }),
        ),
{
    claims.nats.generic_fields.tags = Some(tags);
}

/// Sets the limits of the account.
#[verifier::external_body]
pub(crate) fn set_limits(claims: &mut Claims<Account>, l: Limits)
    requires
        account_claims(*old(claims)) is Some,
    ensures
        account_claims(*final(claims)) == Some(
            (AccountClaimsView { limits: Some(l), ..account_claims(*old(claims))->Some_0 }),
        ),
{
    let account = nats_jwt_rs::account::AccountLimits {
        disallow_bearer: l.disallow_bearer, imports: l.imports, exports: l.exports,
        leaf: l.leaf, wildcard_exports: l.wildcard_exports, conn: l.conn };
    let nats = nats_jwt_rs::types::NatsLimits {
        subs: l.subs, data: l.data, payload: l.payload };
    let jetstream = nats_jwt_rs::account::JetStreamLimits {
        consumer: l.consumer, disk_storage: l.disk_storage, memory_storage: l.memory_storage,
        streams: l.streams, max_ack_pending: l.max_ack_pending,
        mem_max_stream_bytes: l.mem_max_stream_bytes,
        disk_max_stream_bytes: l.disk_max_stream_bytes, max_bytes_required: l.max_bytes_required };
    claims.nats.limits = Some(nats_jwt_rs::account::OperatorLimits {
        account: Some(account), nats: Some(nats), jetstream: Some(jetstream),
        ..Default::default() });
}

/// `IndexSet::insert` into the signing keys of the account, which keeps the order of insertion
/// and leaves the set as it is if the same key with the same scope is in it. Nothing else of the
/// claims changes, so that claims which hold more still do.
#[verifier::external_body]
pub(crate) fn insert_signing_key(claims: &mut Claims<Account>, key: String, scope: Option<Scope>)
    ensures
        account_claims(*final(claims)) == with_key(
            account_claims(*old(claims)),
            (SigningKeyView { key: key@, scope: scope.deep_view() }),
        ),
{
    let scope = scope.map(|s| nats_jwt_rs::types::UserScope {
        key: key.clone(), role: Some(s.role),
        template: Some(nats_jwt_rs::user::UserPermissionLimits {
            permissions: nats_jwt_rs::types::Permissions {
                publish: nats_jwt_rs::types::Permission { allow: s.publish, deny: vec![] },
                subscribe: nats_jwt_rs::types::Permission { allow: s.subscribe, deny: vec![] },
                resp: Some(nats_jwt_rs::types::ResponsePermission {
                    max_messages: s.max_messages, ..Default::default() }) },
            ..Default::default() }),
        ..Default::default() });
    claims.nats.signing_keys.insert(nats_jwt_rs::types::SigningKey { key, scope });
}

/// `Claims::<Account>::encode`, which cannot fail with a key that has a seed and a clock
/// past the year 1969. The token also depends on the second in which it was made.
#[verifier::external_body]
pub(crate) fn encode_account(claims: &Claims<Account>, seed: &str) -> (r: String)
    requires
        account_claims(*claims) is Some,
        keys::key_of_seed(seed@) is Ok,
    ensures
        exists|iat: u64|
            r@ == #[trigger] account_token(account_claims(*claims)->Some_0, seed@, iat),
{
    claims.encode(&nkeys::KeyPair::from_seed(seed).unwrap()).unwrap()
}

} // verus!
