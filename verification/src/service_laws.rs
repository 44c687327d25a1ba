//! What the parts of the hub promise to each other: where components come from, what they are
//! given, where secrets and commands go, and what is done with texts.
use crate::bucket;
use crate::bucket::{BucketStep, OpenError};
use crate::component::{ImageReference, LoadRequest, Protocol, PullRequest, RegistryAuth};
use crate::config;
use crate::config::{ComponentSource, Config, NatsSource, OciSource};
use crate::control;
use crate::control::SecretValue;
use crate::ctl;
use crate::ctl::NewSecret;
use crate::headers;
use crate::ids;
use crate::keys;
use crate::keys::{KeyPair, PublicXKey, XKey};
use crate::proto;
use crate::secrets::SecretsClient;
use crate::text;
use crate::vm;
use crate::vm::{AllocationStrategy, Ctx, EngineSettings, SecretsError, SysRequest};
use crate::worker;
use crate::worker::{Command, Worker};
use async_nats::HeaderMap;
use vstd::prelude::*;

verus! {

/// A component is fetched from the object and the bucket that its source names.
pub proof fn objects_are_fetched_by_name(source: NatsSource, r: Result<LoadRequest, String>)
    requires
        call_ensures(crate::component::load_component, (&ComponentSource::Nats(source),), r),
    ensures
        r matches Ok(LoadRequest::Object { bucket, key }) && bucket@ == source.bucket@ && key@
            == source.key@,
{
    if let Ok(request) = r {
        assert(request@ == (crate::component::LoadRequestView::Object {
            bucket: source.bucket@,
            key: source.key@,
        }));
    }
}

/// An image is pulled from where its name says. Only a source that is marked as insecure is pulled
/// without encryption or with an invalid certificate. A login is used exactly if both a user and a
/// password are named, and it is theirs. The layers are those of modules and of images, in that
/// order. A name that is none is the failure.
pub proof fn images_are_pulled_as_configured(source: OciSource, r: Result<LoadRequest, String>)
    requires
        call_ensures(crate::component::load_component, (&ComponentSource::Oci(source),), r),
    ensures
        match crate::component::image_reference(source.image@) {
            Err(e) => r matches Err(text) && text@ == e,
            Ok(image) => {
                &&& r matches Ok(LoadRequest::Pull(p))
                &&& p.protocol == Protocol::Http <==> source.insecure
                &&& p.accept_invalid_certificates <==> source.insecure
                &&& p.reference.registry@ == image.registry
                &&& p.reference.repository@ == image.repository
                &&& p.reference.tag.deep_view() == image.tag
                &&& p.reference.digest.deep_view() == image.digest
                &&& p.media_types.deep_view() == seq![
                    "application/vnd.module.wasm.content.layer.v1+wasm"@,
                    "application/vnd.oci.image.layer.v1.tar"@,
                ]
                &&& source.username is Some && source.password is Some ==> (
                p.auth matches RegistryAuth::Basic(user, password) && user@
                    == source.username->Some_0@ && password@ == source.password->Some_0@)
                &&& source.username is None || source.password is None ==> p.auth is Anonymous
            },
        },
{
    if let Ok(request) = r {
        assert(crate::component::load_request_of(ComponentSource::Oci(source)) == Ok::<
            crate::component::LoadRequestView,
            Seq<char>,
        >(request@));
        if let LoadRequest::Pull(p) = request {
            assert(p.reference@.registry == p.reference.registry@);
        }
    }
}

/// A pull of an image that was looked up is like one of an image by its name. The bytes of a
/// component are those of its layers, one after the other.
pub proof fn pulls_follow_their_source(
    source: OciSource,
    image: ImageReference,
    r: PullRequest,
    a: Vec<Vec<u8>>,
    layer: Vec<u8>,
    b: Vec<Vec<u8>>,
    bytes_a: Vec<u8>,
    bytes_b: Vec<u8>,
    none: Vec<Vec<u8>>,
    nothing: Vec<u8>,
)
    requires
        call_ensures(crate::component::pull_request, (&source, image), r),
        call_ensures(crate::component::component_bytes, (&a,), bytes_a),
        call_ensures(crate::component::component_bytes, (&b,), bytes_b),
        call_ensures(crate::component::component_bytes, (&none,), nothing),
        b@ == a@.push(layer),
        none@.len() == 0,
    ensures
        r.protocol == Protocol::Http <==> source.insecure,
        r.accept_invalid_certificates <==> source.insecure,
        r.reference@ == image@,
        source.username is Some && source.password is Some ==> (
        r.auth matches RegistryAuth::Basic(user, password) && user@ == source.username->Some_0@
            && password@ == source.password->Some_0@),
        source.username is None || source.password is None ==> r.auth is Anonymous,
        bytes_b@ == bytes_a@ + layer@,
        nothing@.len() == 0,
{
    assert(b.deep_view() =~= a.deep_view().push(layer.deep_view()));
    assert(layer.deep_view() =~= layer@);
    a.deep_view().lemma_flatten_push(layer@);
    assert(none.deep_view() =~= Seq::<Seq<u8>>::empty());
    assert(LoadRequest::Pull(r)@ is Pull);
}

/// A bucket that is open is used, one that does not exist is created under its own name, and any
/// other failure stands. The bucket of the secrets is one of these.
pub proof fn missing_buckets_are_created(
    name: &str,
    opened: Result<(), OpenError>,
    r: BucketStep,
    client: SecretsClient,
    secrets: BucketStep,
)
    requires
        call_ensures(bucket::open_or_create, (name, opened), r),
        call_ensures(SecretsClient::open_bucket, (&client, opened), secrets),
    ensures
        opened is Ok ==> r is Use && secrets is Use,
        opened matches Err(OpenError::GetBucket) ==> (r matches BucketStep::Create(b) && b@
            == name@) && (secrets matches BucketStep::Create(s) && s@ == "WASMCLOUD_ACCOUNT_KEYS"@),
        opened matches Err(OpenError::Other(e)) ==> (r matches BucketStep::Fail(t) && t@
            == "Failed to get bucket: "@ + e@) && (secrets matches BucketStep::Fail(t) && t@
            == "Failed to get bucket: "@ + e@),
{
}

/// What is stored for a secret is read back as that secret, and is not the secret itself. Without
/// anything stored there is no secret; what cannot be opened says so.
pub proof fn secrets_come_back(
    client: SecretsClient,
    data: &str,
    stored: Vec<u8>,
    read: Result<String, String>,
    bytes: Vec<u8>,
    other: Result<String, String>,
    nothing: Result<String, String>,
)
    requires
        call_ensures(SecretsClient::set, (&client, data), stored),
        call_ensures(SecretsClient::get, (&client, Some(&stored)), read),
        call_ensures(SecretsClient::get, (&client, Some(&bytes)), other),
        call_ensures(SecretsClient::get, (&client, None), nothing),
    ensures
        read matches Ok(s) && s@ == data@,
        stored@ != vstd::utf8::encode_utf8(data@),
        nothing matches Err(e) && e@ == "Secret not found"@,
        match keys::opened(client.seed(), bytes@, client.public()) {
            Err(e) => other matches Err(t) && t@ == "unable to decrypt secret :"@ + e,
            Ok(found) => if vstd::utf8::valid_utf8(found) {
                other matches Ok(s) && s@ == vstd::utf8::decode_utf8(found)
            } else {
                other matches Err(t) && t@ == text::utf8_error(found)
            },
        },
{
}

/// The keys of the generator are the configured ones, each in its place.
pub proof fn generator_keys_are_the_configured_ones(
    config: Config,
    r: (Option<String>, Option<String>),
)
    requires
        call_ensures(Config::generator_keys, (&config,), r),
    ensures
        config.lattices matches Some(l) ==> r.0 is Some && r.0->Some_0@ == l.operator_public_key@
            && r.1 is Some && r.1->Some_0@ == l.wasmcloud_system_account@,
        config.lattices is None ==> r.0 is None && r.1 is None,
{
}

/// Erasing the seeds of a callout leaves nothing of them, and the rest as it is.
pub proof fn erased_seeds_are_gone(cfg: &mut config::AuthCallout)
    requires
        call_ensures(config::AuthCallout::erase_seeds, (cfg,), ()),
    ensures
        final(cfg).signing_key_seed@.len() == 0,
        final(cfg).encryption_key_seed@.len() == 0,
        final(cfg).account == old(cfg).account,
        final(cfg).component == old(cfg).component,
        final(cfg).webhook == old(cfg).webhook,
        final(cfg).credsfile == old(cfg).credsfile,
{
}

/// The tool finds the two keys in their files, reads a key in spite of white space around it, and
/// stores the seed of a key under its public key unless there is a secret. The lattice that it asks
/// for has a name and nothing else.
pub proof fn tool_keeps_keys_in_their_places(
    dir: &str,
    system: String,
    operator: String,
    content: &str,
    key: Result<KeyPair, String>,
    pair: KeyPair,
    existing: Result<String, String>,
    secret: Option<NewSecret>,
    name: String,
    lattice: control::Lattice,
)
    requires
        call_ensures(ctl::system_key_file, (dir,), system),
        call_ensures(ctl::operator_key_file, (dir,), operator),
        call_ensures(ctl::read_key, (content,), key),
        call_ensures(ctl::bootstrap, (&pair, &existing), secret),
        call_ensures(ctl::new_lattice, (name,), lattice),
    ensures
        system@ == dir@ + "/keys/WASMCLOUD SYSTEM.nk"@,
        operator@ == dir@ + "/keys/operator-signing.nk"@,
        match keys::key_of_seed(text::trimmed(content@)) {
            Ok(p) => key matches Ok(k) && k.public_text() == p.0 && k.seed_text() == p.1,
            Err(e) => key matches Err(t) && t@ == e,
        },
        existing is Ok ==> secret is None,
        existing is Err ==> (secret matches Some(s) && s.name@ == pair.public_text() && s.value@
            == pair.seed_text()),
        lattice.metadata.name@ == name@,
        lattice.metadata.version@.len() == 0 && lattice.metadata.uid@.len() == 0,
        lattice.metadata.labels.deep_view().len() == 0,
        lattice.metadata.annotations.deep_view().len() == 0,
        lattice.account is None && lattice.signing_keys is None && lattice.description is None,
        !lattice.deletable,
        lattice.status.phase == control::LatticePhase::Provisioning,
{
    assert(lattice@.metadata == lattice.metadata@);
    assert(lattice@.account == lattice.account.deep_view());
    assert(lattice@.signing_keys == lattice.signing_keys.deep_view());
    assert(lattice@.description == lattice.description.deep_view());
}

/// The engine runs components asynchronously, from a pool and interrupted by epochs, without
/// sharing their memory.
pub proof fn engine_is_interruptible(r: EngineSettings, engine: wasmtime::Engine)
    requires
        call_ensures(vm::engine_settings, (), r),
        call_ensures(vm::configure_wasmtime, (), Ok::<wasmtime::Engine, String>(engine)),
    ensures
        r.component_model && r.async_support && r.epoch_interruption && !r.memory_init_cow,
        r.strategy == AllocationStrategy::Pooling,
        vm::made_with(engine) == r,
{
}

/// A secret that is there is handed out under a handle that was free, by which its key is found; as
/// long as a handle is free there is one. A secret that is not there is not handed out. What was
/// handed out before stays.
pub proof fn secrets_are_handed_out(
    ctx: &mut Ctx,
    key: String,
    found: bool,
    r: Result<u32, SecretsError>,
    handle: u32,
)
    requires
        call_ensures(Ctx::get, (ctx, key, found), r),
    ensures
        !found ==> r is Err && r->Err_0 is NotFound,
        found && !vm::handles(old(ctx).table).contains(handle) ==> r is Ok,
        r matches Ok(h) ==> {
            &&& found
            &&& !vm::handles(old(ctx).table).contains(h)
            &&& vm::handles(final(ctx).table).contains(h)
            &&& vm::secret_keys(final(ctx).table).contains_key(h)
            &&& vm::secret_keys(final(ctx).table)[h] == key@
            &&& vm::secret_keys(old(ctx).table).contains_key(handle) ==> vm::secret_keys(
                final(ctx).table,
            ).contains_key(handle) && vm::secret_keys(final(ctx).table)[handle] == vm::secret_keys(
                old(ctx).table,
            )[handle]
        },
        r is Err ==> vm::secret_keys(final(ctx).table) == vm::secret_keys(old(ctx).table)
            && vm::handles(final(ctx).table) == vm::handles(old(ctx).table),
        r matches Err(SecretsError::Io(e)) ==> e@ == "resource table has no free keys"@,
        final(ctx).timeout == old(ctx).timeout && final(ctx).sys_client == old(ctx).sys_client,
{
}

/// A secret that is taken back is gone, and no other is. A handle of nothing, of something to which
/// something is attached, and of something else are each refused for that reason.
pub proof fn secrets_are_taken_back(
    ctx: &mut Ctx,
    handle: u32,
    r: Result<(), String>,
    other: u32,
)
    requires
        call_ensures(Ctx::drop_secret, (ctx, handle), r),
    ensures
        r is Ok <==> vm::secret_keys(old(ctx).table).contains_key(handle) && !vm::parents(
            old(ctx).table,
        ).contains(handle),
        r is Ok ==> !vm::secret_keys(final(ctx).table).contains_key(handle) && !vm::handles(
            final(ctx).table,
        ).contains(handle),
        other != handle ==> (vm::secret_keys(final(ctx).table).contains_key(other)
            <==> vm::secret_keys(old(ctx).table).contains_key(other)),
        other != handle ==> (vm::handles(final(ctx).table).contains(other) <==> vm::handles(
            old(ctx).table,
        ).contains(other)),
        r matches Err(e) ==> e@ == if !vm::handles(old(ctx).table).contains(handle) {
            "resource not present"@
        } else if vm::parents(old(ctx).table).contains(handle) {
            "resource has children"@
        } else {
            "resource is of another type"@
        },
{
}

/// A component starts with nothing. It learns the key of a secret by its handle alone. A secret is
/// revealed as the text that was read; one that could not be read is empty. The system account is
/// asked on the subject of each request, and only if there is a connection to it.
pub proof fn components_are_given_little(
    timeout: u64,
    connected: bool,
    made: Ctx,
    ctx: Ctx,
    handle: u32,
    key: Option<String>,
    read: Result<String, String>,
    shown: SecretValue,
    account: String,
    updated: Result<SysRequest, String>,
    deleted: Result<SysRequest, String>,
)
    requires
        call_ensures(Ctx::new, (timeout, connected), made),
        call_ensures(Ctx::key_of, (&ctx, handle), key),
        call_ensures(Ctx::revealed, (&ctx, read), shown),
        call_ensures(Ctx::update, (&ctx, account), updated),
        call_ensures(Ctx::delete_key, (&ctx, account), deleted),
    ensures
        !vm::handles(made.table).contains(handle) && !vm::secret_keys(made.table).contains_key(
            handle,
        ),
        made.timeout == timeout && made.sys_client == connected,
        key is Some <==> vm::secret_keys(ctx.table).contains_key(handle),
        key matches Some(k) ==> k@ == vm::secret_keys(ctx.table)[handle],
        read matches Ok(s) ==> (shown matches SecretValue::String(t) && t@ == s@),
        read is Err ==> (shown matches SecretValue::String(t) && t@.len() == 0),
        ctx.sys_client ==> {
            &&& updated matches Ok(u) && u.subject@ == "$SYS.REQ.CLAIMS.UPDATE"@ && u.payload@
                == account@
            &&& deleted matches Ok(d) && d.subject@ == "$SYS.REQ.KEYS.DELETE"@ && d.payload@
                == account@
        },
        !ctx.sys_client ==> {
            &&& updated matches Err(e) && e@ == "NATS SYS client is not enabled"@
            &&& deleted matches Err(e) && e@ == "NATS SYS client is not enabled"@
        },
{
    match shown {
        SecretValue::String(t) => {
            assert(shown@ == control::SecretValueView::String(t@));
        },
        SecretValue::Bytes(b) => {
            assert(shown@ == control::SecretValueView::Bytes(b@));
        },
    }
}

/// A secret that is overwritten is empty, and of the kind that it was.
pub proof fn overwritten_secrets_are_empty(secret: &mut SecretValue)
    requires
        call_ensures(SecretValue::zeroize, (secret,), ()),
    ensures
        *old(secret) is String ==> (*final(secret) matches SecretValue::String(s) && s@.len() == 0),
        *old(secret) is Bytes ==> (*final(secret) matches SecretValue::Bytes(b) && b@.len() == 0),
{
    match *old(secret) {
        SecretValue::String(s) => {
            assert(old(secret)@ == control::SecretValueView::String(s@));
        },
        SecretValue::Bytes(b) => {
            assert(old(secret)@ == control::SecretValueView::Bytes(b@));
        },
    }
    match *final(secret) {
        SecretValue::String(s) => {
            assert(final(secret)@ == control::SecretValueView::String(s@));
        },
        SecretValue::Bytes(b) => {
            assert(final(secret)@ == control::SecretValueView::Bytes(b@));
        },
    }
}

/// A command on the queue is about the entity and asks for the action that its subject names. A
/// worker takes every subject of its stream, each message up to ten times. An acknowledgement that
/// fails says so.
pub proof fn commands_are_read_from_subjects(
    entity: Seq<char>,
    action: Seq<char>,
    subject: &str,
    r: Command,
    stream: String,
    name: String,
    made: Worker,
    outcome: Result<(), String>,
    done: Result<(), String>,
)
    requires
        call_ensures(worker::command, (subject,), r),
        call_ensures(Worker::new, (stream, name), made),
        call_ensures(worker::acknowledged, (outcome,), done),
        !entity.contains('.'),
        !action.contains('.'),
        subject@ == "wasmcloud.internal.control_plane.workqueue"@ + "."@ + entity + "."@ + action,
    ensures
        r.entity@ == entity,
        r.action@ == action,
        made.stream@ == stream@,
        made.consumer.name@ == name@,
        made.consumer.filter_subjects.deep_view() == seq![stream@ + ".>"@],
        made.consumer.max_ack_pending == -1,
        made.consumer.max_deliver == 10,
        made.parallelism == 5,
        outcome is Ok <==> done is Ok,
        outcome matches Err(e) ==> (done matches Err(t) && t@ == "Error double acking message: "@
            + e@),
{
    worker::command_reads_back(entity, action);
}

/// The first value under a name is the value of a header; without one there is none.
pub proof fn headers_have_first_values(
    name: &str,
    value: &str,
    r: HeaderMap,
    given: HeaderMap,
    other: Seq<char>,
)
    requires
        call_ensures(headers::single_header, (name, value), r),
    ensures
        headers::header_values(r) == map![name@ => seq![value@]],
        headers::header_values(given).contains_key(other) && headers::header_values(
            given,
        )[other].len() > 0 ==> headers::first_value(given, other) == Some(
            headers::header_values(given)[other][0],
        ),
        !headers::header_values(given).contains_key(other) ==> headers::first_value(
            given,
            other,
        ) is None,
{
}

/// A text is trimmed of white space alone: it is what was trimmed off its two ends, all of it white
/// space, around what is left, which neither starts nor ends with any.
pub proof fn trimming_takes_white_space_only(s: Seq<char>) -> (ends: (Seq<char>, Seq<char>))
    ensures
        s == ends.0 + text::trimmed(s) + ends.1,
        forall|i: int| 0 <= i < ends.0.len() ==> text::is_white_space(#[trigger] ends.0[i]),
        forall|i: int| 0 <= i < ends.1.len() ==> text::is_white_space(#[trigger] ends.1[i]),
        text::trimmed(s).len() > 0 ==> !text::is_white_space(text::trimmed(s)[0])
            && !text::is_white_space(text::trimmed(s).last()),
    decreases s.len(),
{
    if s.len() > 0 && text::is_white_space(s[0]) {
        let ends = trimming_takes_white_space_only(s.skip(1));
        let start = seq![s[0]] + ends.0;
        assert(s =~= seq![s[0]] + s.skip(1));
        assert(s =~= start + text::trimmed(s) + ends.1);
        assert forall|i: int| 0 <= i < start.len() implies text::is_white_space(
            #[trigger] start[i],
        ) by {
            if i > 0 {
                assert(start[i] == ends.0[i - 1]);
            }
        }
        (start, ends.1)
    } else if s.len() > 0 && text::is_white_space(s.last()) {
        let ends = trimming_takes_white_space_only(s.drop_last());
        let end = ends.1.push(s.last());
        assert(s =~= s.drop_last().push(s.last()));
        assert(s =~= ends.0 + text::trimmed(s) + end);
        (ends.0, end)
    } else {
        assert(s =~= Seq::<char>::empty() + s + Seq::<char>::empty());
        (Seq::empty(), Seq::empty())
    }
}

/// The blank, the tabulators, the line ends and the blanks of other scripts are white space;
/// letters, digits and marks below the first of those other blanks are not.
pub proof fn white_space_is_blank(c: char)
    ensures
        c == ' ' || c == '\t' || c == '\n' || c == '\r' ==> text::is_white_space(c),
        c == '\u{b}' || c == '\u{c}' || c == '\u{85}' || c == '\u{a0}' ==> text::is_white_space(c),
        c == '\u{1680}' || '\u{2000}' <= c <= '\u{200a}' ==> text::is_white_space(c),
        c == '\u{2028}' || c == '\u{2029}' || c == '\u{202f}' || c == '\u{205f}' || c == '\u{3000}'
            ==> text::is_white_space(c),
        '!' <= c <= '\u{84}' || '\u{86}' <= c <= '\u{9f}' || '\u{a1}' <= c <= '\u{167f}'
            ==> !text::is_white_space(c),
        c < '\t' || '\u{e}' <= c < ' ' || c > '\u{3000}' ==> !text::is_white_space(c),
        '\u{1681}' <= c < '\u{2000}' || '\u{200b}' <= c < '\u{2028}' || '\u{202a}' <= c
            < '\u{202f}' || '\u{2030}' <= c < '\u{205f}' || '\u{2060}' <= c < '\u{3000}'
            ==> !text::is_white_space(c),
{
}

/// The number that digits stand for.
pub open spec fn value_of(digits: Seq<char>) -> int
    decreases digits.len(),
{
    if digits.len() == 0 {
        0
    } else {
        10 * value_of(digits.drop_last()) + (digits.last() as int - '0' as int)
    }
}

/// A number is written in digits that stand for that number, without a zero in front.
pub proof fn numbers_are_written_in_digits(n: nat)
    ensures
        value_of(text::decimal(n)) == n,
        text::decimal(n).len() > 0,
        forall|i: int|
            0 <= i < text::decimal(n).len() ==> '0' <= #[trigger] text::decimal(n)[i] <= '9',
        n > 0 ==> text::decimal(n)[0] != '0',
    decreases n,
{
    reveal_with_fuel(value_of, 2);
    if n < 10 {
        assert(text::decimal(n).drop_last() =~= Seq::empty());
    } else {
        numbers_are_written_in_digits(n / 10);
        let front = text::decimal(n / 10);
        assert(text::decimal(n).drop_last() =~= front);
        assert forall|i: int| 0 <= i < text::decimal(n).len() implies '0'
            <= #[trigger] text::decimal(n)[i] <= '9' by {
            if i < front.len() {
                assert(text::decimal(n)[i] == front[i]);
            }
        }
        assert(text::decimal(n)[0] == front[0]);
    }
}

/// What is to be removed is removed wherever a text starts with it, and a character that does not
/// start it is kept.
pub proof fn removal_goes_from_left_to_right(s: Seq<char>, pat: Seq<char>)
    requires
        pat.len() > 0,
    ensures
        text::without(pat + s, pat) == text::without(s, pat),
        s.len() >= pat.len() && s.take(pat.len() as int) != pat ==> text::without(s, pat)
            == seq![s[0]] + text::without(s.skip(1), pat),
        s.len() < pat.len() ==> text::without(s, pat) == s,
{
    assert((pat + s).take(pat.len() as int) =~= pat);
    assert((pat + s).skip(pat.len() as int) =~= s);
}

/// An identifier has its own form: a ULID is of 26 digits and capitals, but for I, L, O and U; a
/// UUID is of 32 hexadecimal digits in five groups, and says that it is a random one.
pub proof fn identifiers_have_their_form(s: Seq<char>, i: int)
    requires
        0 <= i < s.len(),
    ensures
        ids::is_ulid(s) ==> s.len() == 26 && ('0' <= s[i] <= '9' || 'A' <= s[i] <= 'Z') && s[i]
            != 'I' && s[i] != 'L' && s[i] != 'O' && s[i] != 'U',
        ids::is_uuid(s) ==> s.len() == 36 && s[14] == '4' && s[8] == '-' && s[13] == '-' && s[18]
            == '-' && s[23] == '-' && ('0' <= s[i] <= '9' || 'a' <= s[i] <= 'f' || s[i] == '-'),
        ids::is_uuid(s) && s[i] == '-' ==> i == 8 || i == 13 || i == 18 || i == 23,
{
}

/// The texts of the library are what they are made of: one after the other, split at a character,
/// without a part, and without white space around them.
pub proof fn texts_are_what_they_are_made_of(
    a: &str,
    b: &str,
    both: String,
    sep: char,
    tokens: Vec<String>,
    rest: String,
    core: String,
    n: u32,
    digits: String,
    i: int,
)
    requires
        call_ensures(text::concatenate, (a, b), both),
        call_ensures(text::split, (a, sep), tokens),
        call_ensures(text::remove_all, (a, b), rest),
        call_ensures(text::trim, (a,), core),
        call_ensures(text::number, (n,), digits),
    ensures
        both@ == a@ + b@,
        text::join(tokens.deep_view(), sep) == a@,
        0 <= i < tokens.deep_view().len() ==> !tokens.deep_view()[i].contains(sep),
        rest@ == text::without(a@, b@),
        core@ == text::trimmed(a@),
        value_of(digits@) == n,
{
    text::join_of_split_is_the_text(a@, sep);
    text::split_tokens_hold_no_separator(a@, sep);
    numbers_are_written_in_digits(n as nat);
}

/// A pair of signing keys is read back from its seed, with the public key that it reports. A text
/// that is no seed is refused for the reason that there is.
pub proof fn keys_are_read_from_their_seeds(
    raw: &[u8],
    made: KeyPair,
    public: String,
    seed: String,
    source: &str,
    read: Result<KeyPair, String>,
    again: String,
    other: &str,
    r: Result<KeyPair, String>,
)
    requires
        call_ensures(KeyPair::new_account, (raw,), made),
        call_ensures(KeyPair::public_key, (&made,), public),
        call_ensures(KeyPair::seed, (&made,), seed),
        source@ == seed@,
        call_ensures(KeyPair::from_seed, (source,), read),
        read is Ok ==> call_ensures(KeyPair::public_key, (&read->Ok_0,), again),
        call_ensures(KeyPair::from_seed, (other,), r),
    ensures
        public@ == keys::account_key(raw@).0 && seed@ == keys::account_key(raw@).1,
        public@.len() == 56 && seed@.len() == 58,
        read is Ok && again@ == public@,
        match keys::key_of_seed(other@) {
            Ok(pair) => r matches Ok(k) && k.public_text() == pair.0 && k.seed_text() == pair.1,
            Err(e) => r matches Err(t) && t@ == e,
        },
{
}

/// What is sealed for someone is opened by that one, with the public key of the one who sealed it,
/// and is what was sealed; the box is not what is in it.
pub proof fn sealed_boxes_are_opened(
    sender: XKey,
    recipient: XKey,
    sender_public: PublicXKey,
    recipient_public: PublicXKey,
    data: &[u8],
    sealed: Vec<u8>,
    content: &[u8],
    opened: Result<Vec<u8>, String>,
)
    requires
        call_ensures(XKey::public_key, (&sender,), sender_public),
        call_ensures(XKey::public_key, (&recipient,), recipient_public),
        call_ensures(XKey::seal, (&sender, data, &recipient_public), sealed),
        content@ == sealed@,
        call_ensures(XKey::open, (&recipient, content, &sender_public), opened),
    ensures
        opened matches Ok(d) && d@ == data@,
        sealed@.len() == data@.len() + 44,
        sender_public.text() == sender.public_text(),
        recipient_public.text() == recipient.public_text(),
{
}

/// Encryption keys are read from their seeds and from their public texts, or refused for the reason
/// that there is.
pub proof fn encryption_keys_are_read(
    source: &str,
    r: Result<XKey, String>,
    text: &str,
    public: Result<PublicXKey, String>,
)
    requires
        call_ensures(XKey::from_seed, (source,), r),
        call_ensures(PublicXKey::from_public_key, (text,), public),
    ensures
        match keys::curve_key_of_seed(source@) {
            Ok(p) => r matches Ok(k) && k.public_text() == p && k.seed_text() == source@,
            Err(e) => r matches Err(t) && t@ == e,
        },
        match keys::curve_key_error(text@) {
            None => public matches Ok(k) && k.text() == text@,
            Some(e) => public matches Err(t) && t@ == e,
        },
{
}

/// A copy of a text, of a list of texts, of a list of pairs and of a lattice is what it is a copy
/// of, and two texts are the same exactly if their characters are.
pub proof fn copies_are_alike(
    a: &str,
    b: &str,
    same: bool,
    list: Vec<String>,
    listed: Vec<String>,
    text: Option<String>,
    copied: Option<String>,
    maybe: Option<Vec<String>>,
    kept: Option<Vec<String>>,
    pairs: Vec<(String, String)>,
    paired: Vec<(String, String)>,
    bytes: &[u8],
    decoded: Result<String, String>,
)
    requires
        call_ensures(crate::text::same, (a, b), same),
        call_ensures(crate::text::copy_list, (&list,), listed),
        call_ensures(crate::text::copy_text, (&text,), copied),
        call_ensures(crate::text::copy_optional_list, (&maybe,), kept),
        call_ensures(crate::text::copy_pairs, (&pairs,), paired),
        call_ensures(crate::text::from_utf8, (bytes,), decoded),
    ensures
        same <==> a@ == b@,
        listed.deep_view() == list.deep_view(),
        copied.deep_view() == text.deep_view(),
        kept.deep_view() == maybe.deep_view(),
        paired.deep_view() == pairs.deep_view(),
        decoded is Ok <==> vstd::utf8::valid_utf8(bytes@),
        decoded matches Ok(t) ==> t@ == vstd::utf8::decode_utf8(bytes@),
        decoded matches Err(e) ==> e@ == crate::text::utf8_error(bytes@),
{
}

/// A copy of a lattice has each of its fields, in both interfaces.
pub proof fn copied_lattices_are_alike(
    lattice: control::Lattice,
    copied: control::Lattice,
    message: proto::Lattice,
    again: proto::Lattice,
)
    requires
        call_ensures(control::Lattice::clone, (&lattice,), copied),
        call_ensures(proto::Lattice::clone, (&message,), again),
    ensures
        copied.account.deep_view() == lattice.account.deep_view(),
        copied.signing_keys.deep_view() == lattice.signing_keys.deep_view(),
        copied.description.deep_view() == lattice.description.deep_view(),
        copied.deletable == lattice.deletable,
        copied.status == lattice.status,
        copied.metadata.name@ == lattice.metadata.name@,
        copied.metadata.version@ == lattice.metadata.version@,
        copied.metadata.uid@ == lattice.metadata.uid@,
        copied.metadata.labels.deep_view() == lattice.metadata.labels.deep_view(),
        copied.metadata.annotations.deep_view() == lattice.metadata.annotations.deep_view(),
        again.meta.deep_view() == message.meta.deep_view(),
        again.spec.deep_view() == message.spec.deep_view(),
{
    assert(copied@.metadata == copied.metadata@ && lattice@.metadata == lattice.metadata@);
}

/// Whatever they are given, the parts of the hub take it.
pub proof fn every_value_is_taken(
    source: ComponentSource,
    oci: OciSource,
    image: ImageReference,
    layers: Vec<Vec<u8>>,
    name: &str,
    opened: Result<(), OpenError>,
    client: SecretsClient,
    stored: Option<&Vec<u8>>,
)
    ensures
        call_requires(crate::component::load_component, (&source,)),
        call_requires(crate::component::pull_request, (&oci, image)),
        call_requires(crate::component::component_bytes, (&layers,)),
        call_requires(bucket::open_or_create, (name, opened)),
        call_requires(SecretsClient::set, (&client, name)),
        call_requires(SecretsClient::get, (&client, stored)),
        call_requires(ctl::read_key, (name,)),
{
}

} // verus!
