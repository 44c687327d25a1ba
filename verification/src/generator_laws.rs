//! What the lattice generator promises: which lattices get an account, what the account may do, who
//! may sign for it, and what it imports.
use crate::claims;
use crate::control;
use crate::control::{
    Context, CreateLatticeResponse, Lattice, LatticeLifecycleError, LifecycleErrorKind, SecretValue,
};
use crate::generator;
use crate::generator::{
    Creation, Drawn, ExportType, Generator, Import, Operated, Ready, Signed, Started,
};
use crate::jwt;
use crate::keys;
use nats_jwt_rs::Claims;
use nats_jwt_rs::account::Account;
use vstd::prelude::*;

verus! {

/// A lattice that has an account is complete as it is: it comes back with each of its fields, and
/// no account is made. For any other the system account and the operator's key have to be named,
/// the system account first; then an account is made for that very request.
pub proof fn lattice_with_an_account_is_left_alone(context: Context, r: Creation)
    requires
        call_ensures(Generator::create, (context,), r),
    ensures
        context.lattice.account is Some ==> {
            &&& r matches Creation::Finished(Ok(response))
            &&& response.account is None
            &&& response.lattice.account.deep_view() == context.lattice.account.deep_view()
            &&& response.lattice.signing_keys.deep_view()
                == context.lattice.signing_keys.deep_view()
            &&& response.lattice.description.deep_view() == context.lattice.description.deep_view()
            &&& response.lattice.deletable == context.lattice.deletable
            &&& response.lattice.status == context.lattice.status
            &&& response.lattice.metadata@ == context.lattice.metadata@
        },
        context.lattice.account is None && context.system_account is None ==> {
            &&& r matches Creation::Finished(Err(e))
            &&& e.kind == LifecycleErrorKind::InvalidArgument
            &&& e.message matches Some(m)
            &&& m@ == "System account not provided"@
        },
        context.lattice.account is None && context.system_account is Some && context.operator_key
            is None ==> {
            &&& r matches Creation::Finished(Err(e))
            &&& e.kind == LifecycleErrorKind::InvalidArgument
            &&& e.message matches Some(m)
            &&& m@ == "Operator key not provided"@
        },
        context.lattice.account is None && context.system_account is Some && context.operator_key
            is Some ==> (r matches Creation::Started(s) && s.context() == context@),
{
    if context.lattice.account is Some {
        if let Creation::Finished(Ok(response)) = r {
            assert(response@.account == response.account.deep_view());
            assert(response@.lattice == response.lattice@);
        }
    }
    if let Creation::Finished(Err(e)) = r {
        assert(e@.message == e.message.deep_view());
    }
}

/// A secret is read as the text that it is. One that could not be fetched, that is no text or that
/// is empty is an internal failure that says so.
pub proof fn secrets_are_texts(
    s: String,
    b: Vec<u8>,
    e: String,
    text: Result<String, LatticeLifecycleError>,
    bytes: Result<String, LatticeLifecycleError>,
    missing: Result<String, LatticeLifecycleError>,
)
    requires
        call_ensures(
            generator::get_secret,
            (Ok::<SecretValue, String>(SecretValue::String(s)),),
            text,
        ),
        call_ensures(
            generator::get_secret,
            (Ok::<SecretValue, String>(SecretValue::Bytes(b)),),
            bytes,
        ),
        call_ensures(generator::get_secret, (Err::<SecretValue, String>(e),), missing),
    ensures
        s@.len() > 0 ==> (text matches Ok(t) && t@ == s@),
        s@.len() == 0 ==> (text matches Err(f) && f.kind == LifecycleErrorKind::Internal
            && f.message is Some && f.message->Some_0@ == "Operator key is empty"@),
        bytes matches Err(f) && f.kind == LifecycleErrorKind::Internal && f.message is Some
            && f.message->Some_0@ == "Operator key is not a string"@,
        missing matches Err(f) && f.kind == LifecycleErrorKind::Internal && f.message is Some
            && f.message->Some_0@ == "Failed to get operator key: "@ + e@,
{
    if let Err(f) = text {
        assert(f@.message == f.message.deep_view());
    }
    if let Err(f) = bytes {
        assert(f@.message == f.message.deep_view());
    }
    if let Err(f) = missing {
        assert(f@.message == f.message.deep_view());
    }
}

/// The keys of the account and of its signer are made of the bytes that were drawn for each. The
/// operator's key and that of the system account are read from the secrets of their names; a
/// secret that is no key is an internal failure that says whose. What is known already is kept.
pub proof fn keys_come_from_draws_and_secrets(
    started: Started,
    account: &[u8],
    signing: &[u8],
    drawn: Drawn,
    operator_name: String,
    operator_seed: String,
    operated: Result<Operated, LatticeLifecycleError>,
    before: Operated,
    system_name: String,
    system_seed: String,
    ready: Result<Ready, LatticeLifecycleError>,
)
    requires
        call_ensures(Started::draw, (started, account, signing), drawn),
        call_ensures(Drawn::operator_key, (&drawn,), operator_name),
        call_ensures(
            Drawn::operator,
            (drawn, Ok::<SecretValue, String>(SecretValue::String(operator_seed))),
            operated,
        ),
        call_ensures(Operated::system_account, (&before,), system_name),
        call_ensures(
            Operated::system,
            (before, Ok::<SecretValue, String>(SecretValue::String(system_seed))),
            ready,
        ),
        operator_seed@.len() > 0,
        system_seed@.len() > 0,
    ensures
        drawn.context() == started.context(),
        drawn.account() == keys::account_key(account@),
        drawn.signing() == keys::account_key(signing@),
        drawn.context().operator_key == Some(operator_name@),
        match keys::key_of_seed(operator_seed@) {
            Ok(pair) => operated matches Ok(next) && next.context() == drawn.context()
                && next.account() == drawn.account() && next.signing() == drawn.signing()
                && next.operator() == pair,
            Err(e) => operated matches Err(f) && f.kind == LifecycleErrorKind::Internal && f.message
                is Some && f.message->Some_0@ == "Failed to create operator keypair: "@ + e,
        },
        before.context().system_account == Some(system_name@),
        match keys::key_of_seed(system_seed@) {
            Ok(pair) => ready matches Ok(next) && next.context() == before.context()
                && next.account() == before.account() && next.signing() == before.signing()
                && next.operator() == before.operator() && next.system() == pair,
            Err(e) => ready matches Err(f) && f.kind == LifecycleErrorKind::Internal && f.message
                is Some && f.message->Some_0@ == "Failed to create system account keypair: "@ + e,
        },
{
    if let Err(f) = operated {
        assert(f@.message == f.message.deep_view());
    }
    if let Err(f) = ready {
        assert(f@.message == f.message.deep_view());
    }
}

/// The claims of an account have no limit, but that bearer tokens are not allowed; wildcards may be
/// exported, and streams need no limit of their own.
pub proof fn account_is_unlimited()
    ensures
        ({
            let l = generator::account_limits();
            &&& l.disallow_bearer == Some(true)
            &&& l.wildcard_exports == Some(true)
            &&& l.max_bytes_required == Some(false)
            &&& l.imports == Some(-1i64) && l.exports == Some(-1i64) && l.leaf == Some(-1i64)
            &&& l.conn == Some(-1i64) && l.subs == Some(-1i64) && l.data == Some(-1i64)
            &&& l.payload == Some(-1i64) && l.consumer == Some(-1i64)
            &&& l.disk_storage == Some(-1i64) && l.memory_storage == Some(-1i64)
            &&& l.streams == Some(-1i64) && l.max_ack_pending == Some(-1i64)
            &&& l.mem_max_stream_bytes == Some(-1i64) && l.disk_max_stream_bytes == Some(-1i64)
        }),
{
}

/// Users may publish to and subscribe to the subjects of their own lattice, of secrets and of the
/// list of lattices, and to inboxes, and to nothing else. They may command the hosts of the lattice
/// by its name only.
pub proof fn users_stay_in_their_lattice(name: Seq<char>, subject: Seq<char>)
    ensures
        generator::user_scope(name).role == "user"@,
        generator::user_scope(name).max_messages == -1,
        generator::user_scope(name).publish.contains(subject) <==> {
            ||| subject == "wasmbus.cfg.{{account-name()}}.>"@
            ||| subject == "wasmbus.evt.{{account-name()}}.>"@
            ||| subject == "wasmbus.ctl.*."@ + name + ".>"@
            ||| subject == "wadm.api.{{account-name()}}.>"@
            ||| subject == "wasmcloud.secrets.>"@
            ||| subject == "wasmcloud.lattice.list"@
            ||| subject == "_INBOX.>"@
        },
        generator::user_scope(name).subscribe.contains(subject) <==> {
            ||| subject == "wasmbus.cfg.{{account-name()}}.>"@
            ||| subject == "wasmbus.evt.{{account-name()}}.>"@
            ||| subject == "wasmbus.ctl.*.{{account-name()}}.>"@
            ||| subject == "wadm.api.{{account-name()}}.>"@
            ||| subject == "{{account-name()}}.*.wrpc.>"@
            ||| subject == "wasmcloud.lattice.watch"@
            ||| subject == "_INBOX.>"@
        },
        generator::user_scope(name).publish.len() == 7,
        generator::user_scope(name).subscribe.len() == 7,
{
    let p = generator::user_scope(name).publish;
    let s = generator::user_scope(name).subscribe;
    assert(p.contains(p[0]) && p.contains(p[1]) && p.contains(p[2]) && p.contains(p[3])
        && p.contains(p[4]) && p.contains(p[5]) && p.contains(p[6]));
    assert(s.contains(s[0]) && s.contains(s[1]) && s.contains(s[2]) && s.contains(s[3])
        && s.contains(s[4]) && s.contains(s[5]) && s.contains(s[6]));
}

/// Components may call and serve each other in their own lattice, and use inboxes and streams, and
/// nothing else.
pub proof fn components_call_each_other(subject: Seq<char>)
    ensures
        generator::rpc_scope().role == "rpc"@,
        generator::rpc_scope().max_messages == -1,
        generator::rpc_scope().publish.contains(subject) <==> {
            ||| subject == "{{account-name()}}.*.wrpc.>"@
            ||| subject == "_INBOX.>"@
            ||| subject == "$JS.>"@
        },
        generator::rpc_scope().subscribe.contains(subject) <==> {
            ||| subject == "{{account-name()}}.*.wrpc.>"@
            ||| subject == "_INBOX.>"@
            ||| subject == "$JS.>"@
        },
        generator::rpc_scope().publish.len() == 3,
        generator::rpc_scope().subscribe.len() == 3,
{
    let p = generator::rpc_scope().publish;
    let s = generator::rpc_scope().subscribe;
    assert(p.contains(p[0]) && p.contains(p[1]) && p.contains(p[2]));
    assert(s.contains(s[0]) && s.contains(s[1]) && s.contains(s[2]));
}

/// The claims of a lattice's account are those of that account, under the name of the lattice. Its
/// tags are the additional metadata, each key with its value. Those who may sign for it are the
/// account itself, with no restriction, the key for users in the scope of users, and the key for
/// components in the scope of components, and no one else.
pub proof fn claims_are_those_of_the_lattice(
    context: control::ContextView,
    account: Seq<char>,
    user: Seq<char>,
    rpc: Seq<char>,
    i: int,
)
    ensures
        ({
            let c = generator::account_of(context, account, user, rpc);
            &&& c.name == context.lattice.metadata.name
            &&& c.subject == account
            &&& c.limits == Some(generator::account_limits())
            &&& c.signing_keys.len() == 3
            &&& c.signing_keys[0].key == account
            &&& c.signing_keys[0].scope is None
            &&& c.signing_keys[1].key == user
            &&& c.signing_keys[1].scope == Some(
                generator::user_scope(context.lattice.metadata.name),
            )
            &&& c.signing_keys[2].key == rpc
            &&& c.signing_keys[2].scope == Some(generator::rpc_scope())
            &&& c.tags is Some <==> context.additional_metadata is Some
            &&& context.additional_metadata matches Some(pairs) ==> {
                &&& c.tags->Some_0.len() == pairs.len()
                &&& 0 <= i < pairs.len() ==> c.tags->Some_0[i] == pairs[i].0 + ":"@ + pairs[i].1
            }
        }),
{
}

/// Making the claims of an account and completing a lattice with it leaves the rest of the lattice
/// as it is. The lattice gets the public key of the account and those of its three signers; the
/// seeds of the same keys, in the same order, and the claims signed by the operator are handed out
/// with it.
pub proof fn lattice_gets_its_account(
    ready: Ready,
    user: &[u8],
    rpc: &[u8],
    signed: Signed,
)
    requires
        call_ensures(Ready::sign, (ready, user, rpc), signed),
    ensures
        ({
            let before = ready.context().lattice;
            let after = signed.response().lattice;
            let user = keys::account_key(user@);
            let rpc = keys::account_key(rpc@);
            &&& after.account == Some(ready.account().0)
            &&& after.signing_keys == Some(seq![user.0, rpc.0, ready.signing().0])
            &&& after.description == before.description
            &&& after.deletable == before.deletable
            &&& after.status == before.status
            &&& after.metadata == before.metadata
            &&& signed.response().account matches Some(handed)
            &&& handed.seed == ready.account().1
            &&& handed.signing_keys == seq![user.1, rpc.1, ready.signing().1]
            &&& exists|iat: u64|
                handed.encoded == #[trigger] claims::account_token(
                    generator::account_of(ready.context(), ready.account().0, user.0, rpc.0),
                    ready.operator().1,
                    iat,
                )
            &&& forall|i: int|
                0 <= i < 3 ==> keys::key_of_seed(#[trigger] handed.signing_keys[i]) is Ok
                    && keys::key_of_seed(handed.signing_keys[i])->Ok_0.0
                    == after.signing_keys->Some_0[i]
        }),
{
    assert(generator::keys_agree(signed.response(), 0));
    assert(generator::keys_agree(signed.response(), 1));
    assert(generator::keys_agree(signed.response(), 2));
}

/// The claims that are published are those that were handed out, and the answer is the completed
/// lattice once they are; a publication that fails is an internal failure.
pub proof fn signed_claims_are_published(
    signed: Signed,
    claims: String,
    e: String,
    done: Result<CreateLatticeResponse, LatticeLifecycleError>,
    failed: Result<CreateLatticeResponse, LatticeLifecycleError>,
)
    requires
        call_ensures(Signed::claims, (&signed,), claims),
        call_ensures(Signed::published, (signed, Ok::<(), String>(())), done),
        call_ensures(Signed::published, (signed, Err::<(), String>(e)), failed),
    ensures
        signed.response().account matches Some(account) && claims@ == account.encoded,
        done matches Ok(response) && response.lattice@ == signed.response().lattice
            && response.account.deep_view() == signed.response().account,
        failed matches Err(f) && f.kind == LifecycleErrorKind::Internal && f.message is Some
            && f.message->Some_0@ == "Failed to update account: "@ + e@,
{
    if let Ok(response) = done {
        assert(response@.lattice == response.lattice@);
    }
    if let Err(f) = failed {
        assert(f@.message == f.message.deep_view());
    }
}

/// Changing and deleting a lattice are nothing to the generator: the lattice comes back as it is.
pub proof fn generator_only_creates(
    context: Context,
    updated: Result<Lattice, LatticeLifecycleError>,
    lattice: Lattice,
    deleted: Result<Lattice, LatticeLifecycleError>,
)
    requires
        call_ensures(Generator::update, (context,), updated),
        call_ensures(Generator::delete, (lattice,), deleted),
    ensures
        updated matches Ok(l) && l == context.lattice,
        deleted matches Ok(l) && l == lattice,
{
}

/// The signers of an account are the ones it had, and two more: the key for users, in the scope of
/// users of the lattice, and the key for components, in the scope of components. Nothing else of
/// the claims changes. The seeds of the two are the result, in that order.
pub proof fn signers_are_added(
    account: &mut Claims<Account>,
    name: &str,
    user: &[u8],
    rpc: &[u8],
    r: Vec<String>,
)
    requires
        call_ensures(Generator::scoped_signers, (account, name, user, rpc), r),
        claims::account_claims(*old(account)) is Some,
    ensures
        ({
            let before = claims::account_claims(*old(account))->Some_0;
            let after = claims::account_claims(*final(account))->Some_0;
            let for_users = claims::SigningKeyView {
                key: keys::account_key(user@).0,
                scope: Some(generator::user_scope(name@)),
            };
            let for_components = claims::SigningKeyView {
                key: keys::account_key(rpc@).0,
                scope: Some(generator::rpc_scope()),
            };
            &&& claims::account_claims(*final(account)) is Some
            &&& after.name == before.name
            &&& after.subject == before.subject
            &&& after.tags == before.tags
            &&& after.limits == before.limits
            &&& after.signing_keys.contains(for_users)
            &&& after.signing_keys.contains(for_components)
            &&& before.signing_keys.is_prefix_of(after.signing_keys)
            &&& forall|key: claims::SigningKeyView| #[trigger]
                after.signing_keys.contains(key) ==> before.signing_keys.contains(key) || key
                    == for_users || key == for_components
            &&& r@.len() == 2
            &&& r@[0]@ == keys::account_key(user@).1
            &&& r@[1]@ == keys::account_key(rpc@).1
        }),
{
    let before = claims::account_claims(*old(account))->Some_0.signing_keys;
    let for_users = claims::SigningKeyView {
        key: keys::account_key(user@).0,
        scope: Some(generator::user_scope(name@)),
    };
    let for_components = claims::SigningKeyView {
        key: keys::account_key(rpc@).0,
        scope: Some(generator::rpc_scope()),
    };
    let between = claims::with_signing_key(before, for_users);
    inserted_key_is_there(before, for_users);
    inserted_key_is_there(between, for_components);
    assert(r.deep_view().len() == 2);
    assert(r.deep_view()[0] == r@[0]@ && r.deep_view()[1] == r@[1]@);
}

/// A key that is inserted is there, behind those that were there before, and no other key is.
proof fn inserted_key_is_there(list: Seq<claims::SigningKeyView>, key: claims::SigningKeyView)
    ensures
        claims::with_signing_key(list, key).contains(key),
        list.is_prefix_of(claims::with_signing_key(list, key)),
        forall|other: claims::SigningKeyView| #[trigger]
            claims::with_signing_key(list, key).contains(other) <==> list.contains(other) || other
                == key,
{
    let after = claims::with_signing_key(list, key);
    if !list.contains(key) {
        assert(after[list.len() as int] == key);
        assert forall|other: claims::SigningKeyView| #[trigger] after.contains(other) <==> (
        list.contains(other) || other == key) by {
            if list.contains(other) {
                let i = choose|i: int| 0 <= i < list.len() && list[i] == other;
                assert(after[i] == other);
            }
        }
    }
}

/// The account of a lattice imports six subjects from the system account: the configuration, the
/// events and the control of the lattice and its secrets, each under its own account and by its
/// name, and the list and the watch of lattices. All but the watch are services. Each import
/// carries a token by which the system account permits that very subject to the account.
pub proof fn imports_are_those_of_the_lattice(
    system_account: &str,
    account: &str,
    name: &str,
    signer: keys::KeyPair,
    r: Vec<Import>,
)
    requires
        call_ensures(generator::imports, (system_account, account, name, &signer), r),
    ensures
        r@.len() == 6,
        forall|i: int|
            0 <= i < 6 ==> (#[trigger] r@[i]).account@ == system_account@ && exists|iat: u64|
                r@[i].token@ == #[trigger] jwt::activation_token(
                    r@[i].subject@,
                    account@,
                    system_account@,
                    r@[i].subject@,
                    signer.seed_text(),
                    iat,
                ),
        r@[0].local_subject@ == "wasmbus.cfg."@ + name@ + ".>"@,
        r@[1].local_subject@ == "wasmbus.evt."@ + name@ + ".>"@,
        r@[2].local_subject@ == "wasmbus.ctl."@ + name@ + ".>"@,
        r@[3].local_subject@ == "wasmcloud.secrets.>"@,
        r@[4].local_subject@.len() == 0,
        r@[5].local_subject@.len() == 0,
        r@[0].subject@ == account@ + "."@ + r@[0].local_subject@,
        r@[1].subject@ == account@ + "."@ + r@[1].local_subject@,
        r@[2].subject@ == account@ + "."@ + r@[2].local_subject@,
        r@[3].subject@ == account@ + "."@ + ("wasmcloud.secrets."@ + name@ + ".>"@),
        r@[4].subject@ == "wasmcloud.lattice.list"@,
        r@[5].subject@ == "wasmcloud.lattice.watch"@,
        forall|i: int|
            0 <= i < 6 ==> (#[trigger] r@[i]).export_type == if i == 5 {
                ExportType::Stream
            } else {
                ExportType::Service
            },
{
    let list = r@.map_values(|i: Import| i@);
    assert(list.len() == r@.len());
    assert forall|i: int| 0 <= i < 6 implies list[i] == (#[trigger] r@[i])@ by {}
    assert(list[0] == r@[0]@ && list[1] == r@[1]@ && list[2] == r@[2]@ && list[3] == r@[3]@
        && list[4] == r@[4]@ && list[5] == r@[5]@);
    assert forall|i: int| 0 <= i < 6 implies (#[trigger] r@[i]).account@ == system_account@
        && exists|iat: u64|
        r@[i].token@ == #[trigger] jwt::activation_token(
            r@[i].subject@,
            account@,
            system_account@,
            r@[i].subject@,
            signer.seed_text(),
            iat,
        ) by {
        assert(i == 0 || i == 1 || i == 2 || i == 3 || i == 4 || i == 5);
        assert(generator::is_activated(r@[i], account@, signer.seed_text()));
    }
    assert forall|i: int| 0 <= i < 6 implies (#[trigger] r@[i]).export_type == if i == 5 {
        ExportType::Stream
    } else {
        ExportType::Service
    } by {
        assert(i == 0 || i == 1 || i == 2 || i == 3 || i == 4 || i == 5);
    }
}

/// Whatever is asked for, the generator starts on it, and it goes on with whatever its host
/// answers; only what is drawn has to be of thirty-two bytes.
pub proof fn every_request_is_taken(
    context: Context,
    started: Started,
    drawn: Drawn,
    operated: Operated,
    ready: Ready,
    signed: Signed,
    a: &[u8],
    b: &[u8],
    fetched: Result<SecretValue, String>,
    outcome: Result<(), String>,
)
    ensures
        call_requires(Generator::create, (context,)),
        a@.len() == 32 && b@.len() == 32 ==> call_requires(Started::draw, (started, a, b))
            && call_requires(Ready::sign, (ready, a, b)),
        call_requires(Drawn::operator, (drawn, fetched)),
        call_requires(Operated::system, (operated, fetched)),
        call_requires(Signed::published, (signed, outcome)),
{
}

} // verus!
