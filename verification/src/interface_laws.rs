//! What the records of one interface are in another, and what a record says: field by field.
use crate::bindings;
use crate::client;
use crate::client::{ClientRequest, LatticeClient, LatticeError, LatticeWatcher, RequestErrorKind};
use crate::control;
use crate::control::{LatticePhase, LatticeUpdate};
use crate::effects::{Effect, EffectView, Outcome, OutcomeView};
use crate::formatter;
use crate::headers;
use crate::labels;
use crate::labels::Labels;
use crate::proto;
use crate::wire;
use crate::wire::Record;
use vstd::prelude::*;

verus! {

/// A lattice of the control interface says in the protobuf interface what it says, field by field;
/// a missing text or list is empty, and of two labels with one key the later one counts.
pub proof fn fields_pass_to_messages(lattice: control::Lattice, r: proto::Lattice)
    requires
        call_ensures(bindings::proto_lattice, (lattice,), r),
    ensures
        r.meta is Some,
        r.meta->Some_0.name@ == lattice.metadata.name@,
        r.meta->Some_0.version@ == lattice.metadata.version@,
        r.meta->Some_0.uid@ == lattice.metadata.uid@,
        r.meta->Some_0.labels@ == labels::map_of(lattice.metadata.labels.deep_view()),
        r.meta->Some_0.annotations@ == labels::map_of(lattice.metadata.annotations.deep_view()),
        r.spec is Some,
        lattice.account matches Some(a) ==> r.spec->Some_0.account@ == a@,
        lattice.account is None ==> r.spec->Some_0.account@.len() == 0,
        lattice.description matches Some(d) ==> r.spec->Some_0.description@ == d@,
        lattice.description is None ==> r.spec->Some_0.description@.len() == 0,
        lattice.signing_keys matches Some(k) ==> r.spec->Some_0.signing_keys.deep_view()
            == k.deep_view(),
        lattice.signing_keys is None ==> r.spec->Some_0.signing_keys@.len() == 0,
        r.spec->Some_0.deletable == lattice.deletable,
        r.spec->Some_0.status == Some(
            proto::LatticeStatus {
                phase: match lattice.status.phase {
                    LatticePhase::Provisioning => 1,
                    LatticePhase::Created => 2,
                    LatticePhase::Deleting => 3,
                },
            },
        ),
{
    assert(r@.meta == r.meta.deep_view() && r@.spec == r.spec.deep_view());
    assert(r@.meta->Some_0 == r.meta->Some_0@);
    assert(r@.spec->Some_0 == r.spec->Some_0@);
    assert(lattice@.metadata == lattice.metadata@);
    assert(r.spec->Some_0.signing_keys.deep_view().len() == r.spec->Some_0.signing_keys@.len());
}

/// A message says in the control interface what it says, field by field; an empty text or list is
/// missing, a phase that is not known is that of provisioning, and the labels are the same.
pub proof fn fields_pass_from_messages(lattice: proto::Lattice, r: control::Lattice)
    requires
        call_ensures(bindings::component_lattice, (lattice,), r),
    ensures
        lattice.meta matches Some(meta) ==> {
            &&& r.metadata.name@ == meta.name@
            &&& r.metadata.version@ == meta.version@
            &&& r.metadata.uid@ == meta.uid@
            &&& labels::map_of(r.metadata.labels.deep_view()) == meta.labels@
            &&& labels::distinct(r.metadata.labels.deep_view())
            &&& labels::map_of(r.metadata.annotations.deep_view()) == meta.annotations@
            &&& labels::distinct(r.metadata.annotations.deep_view())
        },
        lattice.meta is None ==> r.metadata.name@.len() == 0 && r.metadata.version@.len() == 0
            && r.metadata.uid@.len() == 0,
        lattice.spec matches Some(spec) ==> {
            &&& r.account.deep_view() == if spec.account@.len() > 0 {
                Some(spec.account@)
            } else {
                None
            }
            &&& r.description.deep_view() == if spec.description@.len() > 0 {
                Some(spec.description@)
            } else {
                None
            }
            &&& r.signing_keys.deep_view() == if spec.signing_keys@.len() > 0 {
                Some(spec.signing_keys.deep_view())
            } else {
                None
            }
            &&& r.deletable == spec.deletable
            &&& spec.status matches Some(status) ==> r.status.phase == if status.phase == 2 {
                LatticePhase::Created
            } else if status.phase == 3 {
                LatticePhase::Deleting
            } else {
                LatticePhase::Provisioning
            }
            &&& spec.status is None ==> r.status.phase == LatticePhase::Provisioning
        },
        lattice.spec is None ==> {
            &&& r.account is None && r.description is None && r.signing_keys is None
            &&& !r.deletable && r.status.phase == LatticePhase::Provisioning
        },
{
    assert(r@.metadata == r.metadata@);
    assert(r@.account == r.account.deep_view() && r@.description == r.description.deep_view()
        && r@.signing_keys == r.signing_keys.deep_view());
    if lattice.meta is Some {
        assert(lattice@.meta == Some(lattice.meta->Some_0@));
    } else {
        assert(lattice@.meta is None);
    }
    if lattice.spec is Some {
        assert(lattice@.spec == Some(lattice.spec->Some_0@));
        assert(lattice.spec->Some_0.signing_keys.deep_view().len()
            == lattice.spec->Some_0.signing_keys@.len());
    } else {
        assert(lattice@.spec is None);
    }
}

/// The status and the metadata pass between the interfaces like the lattice that they belong to.
pub proof fn parts_pass_between_interfaces(
    status: proto::LatticeStatus,
    there: control::LatticeStatus,
    known: control::LatticeStatus,
    back: proto::LatticeStatus,
    meta: proto::Metadata,
    listed: control::Metadata,
    given: control::Metadata,
    mapped: proto::Metadata,
)
    requires
        call_ensures(bindings::component_status, (status,), there),
        call_ensures(bindings::proto_status, (known,), back),
        call_ensures(bindings::component_metadata, (meta,), listed),
        call_ensures(bindings::proto_metadata, (given,), mapped),
    ensures
        there.phase == if status.phase == 2 {
            LatticePhase::Created
        } else if status.phase == 3 {
            LatticePhase::Deleting
        } else {
            LatticePhase::Provisioning
        },
        back.phase == match known.phase {
            LatticePhase::Provisioning => 1i32,
            LatticePhase::Created => 2i32,
            LatticePhase::Deleting => 3i32,
        },
        listed.name@ == meta.name@ && listed.version@ == meta.version@ && listed.uid@ == meta.uid@,
        labels::map_of(listed.labels.deep_view()) == meta.labels@,
        labels::map_of(listed.annotations.deep_view()) == meta.annotations@,
        mapped.name@ == given.name@ && mapped.version@ == given.version@ && mapped.uid@
            == given.uid@,
        mapped.labels@ == labels::map_of(given.labels.deep_view()),
        mapped.annotations@ == labels::map_of(given.annotations.deep_view()),
{
}

/// The phases of the protobuf interface have the numbers zero to three, and every number of these
/// is a phase.
pub proof fn phases_have_their_numbers(
    phase: proto::LatticePhase,
    number: i32,
    value: i32,
    r: Option<proto::LatticePhase>,
)
    requires
        call_ensures(proto::LatticePhase::to_i32, (phase,), number),
        call_ensures(proto::LatticePhase::from_i32, (value,), r),
    ensures
        phase is LatticeUnspecified ==> number == 0,
        phase is LatticeProvisioning ==> number == 1,
        phase is LatticeCreated ==> number == 2,
        phase is LatticeDeleting ==> number == 3,
        r is Some <==> 0 <= value <= 3,
        value == 0 ==> r == Some(proto::LatticePhase::LatticeUnspecified),
        value == 1 ==> r == Some(proto::LatticePhase::LatticeProvisioning),
        value == 2 ==> r == Some(proto::LatticePhase::LatticeCreated),
        value == 3 ==> r == Some(proto::LatticePhase::LatticeDeleting),
{
    assert(proto::LatticePhase::LatticeUnspecified.number() == 0);
    assert(proto::LatticePhase::LatticeProvisioning.number() == 1);
    assert(proto::LatticePhase::LatticeCreated.number() == 2);
    assert(proto::LatticePhase::LatticeDeleting.number() == 3);
}

/// Nothing is set in a record that nothing was put into.
pub proof fn nothing_is_set_at_first(meta: proto::Metadata, spec: proto::LatticeSpec)
    requires
        call_ensures(proto::Metadata::default, (), meta),
        call_ensures(proto::LatticeSpec::default, (), spec),
    ensures
        meta.name@.len() == 0 && meta.version@.len() == 0 && meta.uid@.len() == 0,
        meta.labels@ == Map::<Seq<char>, Seq<char>>::empty(),
        meta.annotations@ == Map::<Seq<char>, Seq<char>>::empty(),
        spec.account@.len() == 0 && spec.signing_keys@.len() == 0 && spec.description@.len() == 0,
        spec.status is None,
        !spec.deletable,
{
    assert(spec.signing_keys.deep_view().len() == spec.signing_keys@.len());
}

/// The record of a lattice has each of its fields, and the phase as its number; the lattice of a
/// record has each of the record's fields, and the phase of that number. A number that is no phase
/// is named.
pub proof fn records_have_the_fields_of_lattices(
    lattice: control::Lattice,
    record: Record,
    given: Record,
    r: Result<control::Lattice, String>,
)
    requires
        call_ensures(wire::to_record, (&lattice,), record),
        call_ensures(wire::from_record, (given,), r),
    ensures
        record.name@ == lattice.metadata.name@,
        record.version@ == lattice.metadata.version@,
        record.uid@ == lattice.metadata.uid@,
        record.labels.deep_view() == lattice.metadata.labels.deep_view(),
        record.annotations.deep_view() == lattice.metadata.annotations.deep_view(),
        record.account.deep_view() == lattice.account.deep_view(),
        record.signing_keys.deep_view() == lattice.signing_keys.deep_view(),
        record.description.deep_view() == lattice.description.deep_view(),
        record.deletable == lattice.deletable,
        record.phase == match lattice.status.phase {
            LatticePhase::Provisioning => 0u32,
            LatticePhase::Created => 1u32,
            LatticePhase::Deleting => 2u32,
        },
        r is Ok <==> given.phase < 3,
        r matches Ok(l) ==> {
            &&& l.metadata.name@ == given.name@
            &&& l.metadata.version@ == given.version@
            &&& l.metadata.uid@ == given.uid@
            &&& l.metadata.labels.deep_view() == given.labels.deep_view()
            &&& l.metadata.annotations.deep_view() == given.annotations.deep_view()
            &&& l.account.deep_view() == given.account.deep_view()
            &&& l.signing_keys.deep_view() == given.signing_keys.deep_view()
            &&& l.description.deep_view() == given.description.deep_view()
            &&& l.deletable == given.deletable
            &&& given.phase == 0 <==> l.status.phase == LatticePhase::Provisioning
            &&& given.phase == 1 <==> l.status.phase == LatticePhase::Created
            &&& given.phase == 2 <==> l.status.phase == LatticePhase::Deleting
        },
        r matches Err(e) ==> e@ == "unknown enum discriminant `"@ + crate::text::decimal(
            given.phase as nat,
        ) + "`"@,
{
    assert(lattice@.metadata == lattice.metadata@);
    if let Ok(l) = r {
        assert(l@.metadata == l.metadata@);
    }
}

/// Bytes are read as the lattice of the record that they unpack to, and packing is that of the
/// lattice's own record; what was packed is read as the lattice that it was.
pub proof fn packed_lattice_is_read(
    lattice: control::Lattice,
    packed: Result<Vec<u8>, String>,
    bytes: &[u8],
    r: Result<control::Lattice, String>,
)
    requires
        call_ensures(wire::pack, (&lattice,), packed),
        call_ensures(wire::unpack, (bytes,), r),
        packed matches Ok(b) ==> b@ == bytes@,
    ensures
        packed is Ok ==> (r matches Ok(l) && l@ == lattice@),
        wire::unpacked(bytes@) matches Err(e) ==> (r matches Err(text) && text@ == e),
{
}

/// What a lattice, its metadata and a change of it say are all of their fields.
pub proof fn records_say_all_their_fields(
    lattice: control::Lattice,
    update: LatticeUpdate,
    context: control::Context,
    response: control::CreateLatticeResponse,
    account: control::GeneratedAccount,
)
    ensures
        lattice@.metadata.name == lattice.metadata.name@,
        lattice@.metadata.version == lattice.metadata.version@,
        lattice@.metadata.uid == lattice.metadata.uid@,
        lattice@.metadata.labels == lattice.metadata.labels.deep_view(),
        lattice@.metadata.annotations == lattice.metadata.annotations.deep_view(),
        lattice@.account == lattice.account.deep_view(),
        lattice@.signing_keys == lattice.signing_keys.deep_view(),
        lattice@.description == lattice.description.deep_view(),
        lattice@.deletable == lattice.deletable,
        lattice@.status.phase == lattice.status.phase,
        update@.lattice == update.lattice@,
        update@.account == update.account.deep_view(),
        update@.description == update.description.deep_view(),
        update@.signing_keys == update.signing_keys.deep_view(),
        update@.deletable == update.deletable,
        context@.lattice == context.lattice@,
        context@.additional_metadata == context.additional_metadata.deep_view(),
        context@.operator_key == context.operator_key.deep_view(),
        context@.system_account == context.system_account.deep_view(),
        response@.lattice == response.lattice@,
        response.account is None <==> response@.account is None,
        response.account matches Some(a) ==> response@.account == Some(a@),
        account@.signing_keys == account.signing_keys.deep_view(),
        account@.seed == account.seed@,
        account@.encoded == account.encoded@,
{
}

/// What the records of the protobuf interface say are all of their fields.
pub proof fn messages_say_all_their_fields(
    lattice: proto::Lattice,
    meta: proto::Metadata,
    spec: proto::LatticeSpec,
    update: proto::LatticeUpdate,
)
    ensures
        lattice.meta matches Some(m) ==> lattice@.meta == Some(m@),
        lattice.meta is None ==> lattice@.meta is None,
        lattice.spec matches Some(s) ==> lattice@.spec == Some(s@),
        lattice.spec is None ==> lattice@.spec is None,
        meta@.name == meta.name@,
        meta@.version == meta.version@,
        meta@.uid == meta.uid@,
        meta@.labels == meta.labels@,
        meta@.annotations == meta.annotations@,
        spec@.account == spec.account@,
        spec@.signing_keys == spec.signing_keys.deep_view(),
        spec@.description == spec.description@,
        spec@.status == spec.status,
        spec@.deletable == spec.deletable,
        update@.description == update.description@,
        update@.deletable == update.deletable,
        update@.account == update.account@,
        update@.signing_keys == update.signing_keys.deep_view(),
{
}

/// What an effect and an outcome say are all of their parts.
pub proof fn effects_say_all_their_parts(
    effect: Effect<control::Lattice>,
    outcome: Outcome<control::Lattice>,
)
    ensures
        match effect {
            Effect::CreateBucket { bucket, replicas } => effect@ == (EffectView::<
                control::LatticeView,
            >::CreateBucket { bucket: bucket@, replicas }),
            Effect::OpenBucket { bucket } => effect@ == (EffectView::<
                control::LatticeView,
            >::OpenBucket { bucket: bucket@ }),
            Effect::Put { key, lattice } => effect@ == (EffectView::Put {
                key: key@,
                lattice: lattice@,
            }),
            Effect::PutEmpty { key } => effect@ == (EffectView::<
                control::LatticeView,
            >::PutEmpty { key: key@ }),
            Effect::Update { key, lattice, revision } => effect@ == (EffectView::Update {
                key: key@,
                lattice: lattice@,
                revision,
            }),
            Effect::Get { key } => effect@ == (EffectView::<control::LatticeView>::Get {
                key: key@,
            }),
            Effect::Delete { key } => effect@ == (EffectView::<control::LatticeView>::Delete {
                key: key@,
            }),
            Effect::Request { subject, payload } => effect@ == (EffectView::<
                control::LatticeView,
            >::Request { subject: subject@, payload: payload@ }),
            Effect::Create { context } => effect@ == (EffectView::<
                control::LatticeView,
            >::Create { context: context@ }),
            Effect::Print { line } => effect@ == (EffectView::<control::LatticeView>::Print {
                line: line@,
            }),
        },
        match outcome {
            Outcome::Done => outcome@ is Done,
            Outcome::Failed(e) => outcome@ == OutcomeView::<control::LatticeView>::Failed(e@),
            Outcome::Written(n) => outcome@ == OutcomeView::<control::LatticeView>::Written(n),
            Outcome::Found(Some(l)) => outcome@ == OutcomeView::Found(Some(l@)),
            Outcome::Found(None) => outcome@ == OutcomeView::<control::LatticeView>::Found(None),
            Outcome::Unreadable(e) => outcome@ == OutcomeView::<
                control::LatticeView,
            >::Unreadable(e@),
            Outcome::Reply(p) => outcome@ == OutcomeView::<control::LatticeView>::Reply(p@),
            Outcome::Created(Ok(r)) => outcome@ == OutcomeView::<
                control::LatticeView,
            >::Created(Ok(r@)),
            Outcome::Created(Err(e)) => outcome@ == OutcomeView::<
                control::LatticeView,
            >::Created(Err(e@)),
        },
{
}

/// A request of a client goes to the subject of the service, the operation and the lattice, with
/// one header that says that it is a protobuf message. The operation `add` adds, and watching names
/// no lattice.
pub proof fn requests_say_what_they_ask_for(
    client: LatticeClient,
    operation: &str,
    name: &str,
    asked: ClientRequest,
    added: ClientRequest,
    watched: ClientRequest,
)
    requires
        call_ensures(LatticeClient::request, (&client, operation, name), asked),
        call_ensures(LatticeClient::add, (&client, name), added),
        call_ensures(LatticeClient::watch, (&client,), watched),
    ensures
        asked.subject@ == "wasmcloud.lattice.v1alpha1_proto"@ + "."@ + operation@ + "."@ + name@,
        added.subject@ == "wasmcloud.lattice.v1alpha1_proto"@ + "."@ + "add"@ + "."@ + name@,
        watched.subject@ == "wasmcloud.lattice.v1alpha1_proto"@ + ".watch"@,
        headers::header_values(asked.headers) == map![
            "Content-Type"@ => seq!["application/x-protobuf"@]
        ],
        headers::header_values(added.headers) == map![
            "Content-Type"@ => seq!["application/x-protobuf"@]
        ],
        headers::header_values(watched.headers) == map![
            "Content-Type"@ => seq!["application/x-protobuf"@]
        ],
{
}

/// A failure says what failed. A watcher keeps up to a hundred messages, and passes on exactly
/// those that can be decoded.
pub proof fn clients_report_what_happened(
    kind: RequestErrorKind,
    e: String,
    nats: String,
    api: String,
    made: LatticeWatcher,
    watcher: LatticeWatcher,
    message: Vec<u8>,
    passed: client::WatcherStep<Vec<u8>>,
    dropped: client::WatcherStep<Vec<u8>>,
)
    requires
        call_ensures(LatticeError::message, (&LatticeError::Nats(kind),), nats),
        call_ensures(LatticeError::message, (&LatticeError::ApiError(e),), api),
        call_ensures(LatticeWatcher::new, (), made),
        call_ensures(
            LatticeWatcher::received::<Vec<u8>>,
            (&watcher, Ok::<Vec<u8>, String>(message)),
            passed,
        ),
        call_ensures(
            LatticeWatcher::received::<Vec<u8>>,
            (&watcher, Err::<Vec<u8>, String>(e)),
            dropped,
        ),
    ensures
        kind is TimedOut ==> nats@ == "nats error: "@ + "request timed out"@,
        kind is NoResponders ==> nats@ == "nats error: "@ + "no responders"@,
        kind is Other ==> nats@ == "nats error: "@ + "request failed"@,
        api@ == "error: "@ + e@,
        made.buffer == 100,
        passed matches client::WatcherStep::Forward(m) && m == message,
        dropped is Skip,
{
}

/// A request to add a lattice has its name, its description and its flag, and nothing else. One to
/// change it has each value that is given, and names exactly the fields that are given, in turn.
pub proof fn arguments_become_requests(
    name: String,
    text: String,
    flag: bool,
    added: proto::Lattice,
    description: Option<String>,
    deletable: Option<bool>,
    account: Option<String>,
    changed: (proto::LatticeUpdate, Vec<String>),
)
    requires
        call_ensures(formatter::add_request, (name, text, flag), added),
        call_ensures(formatter::update_request, (description, deletable, account), changed),
    ensures
        added@.meta matches Some(meta) && meta.name == name@ && meta.version.len() == 0
            && meta.uid.len() == 0,
        added@.spec matches Some(spec) && spec.description == text@ && spec.deletable == flag
            && spec.account.len() == 0 && spec.signing_keys.len() == 0 && spec.status is None,
        description matches Some(d) ==> changed.0.description@ == d@,
        description is None ==> changed.0.description@.len() == 0,
        deletable matches Some(d) ==> changed.0.deletable == d,
        deletable is None ==> !changed.0.deletable,
        account matches Some(a) ==> changed.0.account@ == a@,
        account is None ==> changed.0.account@.len() == 0,
        changed.0.signing_keys.deep_view().len() == 0,
        changed.1.deep_view() == (if description is Some {
            seq!["spec.description"@]
        } else {
            seq![]
        }) + (if deletable is Some {
            seq!["spec.deletable"@]
        } else {
            seq![]
        }) + (if account is Some {
            seq!["spec.account"@]
        } else {
            seq![]
        }),
{
}

/// Of the pairs of a list, the last one with a key says what is under that key; other keys are not
/// there.
pub proof fn later_pairs_count(pairs: Seq<(Seq<char>, Seq<char>)>, i: int, key: Seq<char>)
    requires
        0 <= i < pairs.len(),
        forall|j: int| i < j < pairs.len() ==> (#[trigger] pairs[j]).0 != pairs[i].0,
    ensures
        labels::map_of(pairs).contains_key(pairs[i].0),
        labels::map_of(pairs)[pairs[i].0] == pairs[i].1,
        (forall|j: int| 0 <= j < pairs.len() ==> (#[trigger] pairs[j]).0 != key)
            ==> !labels::map_of(pairs).contains_key(key),
    decreases pairs.len(),
{
    let front = pairs.drop_last();
    if i < front.len() {
        assert(pairs[pairs.len() - 1].0 != pairs[i].0);
        assert forall|j: int| i < j < front.len() implies (#[trigger] front[j]).0 != front[i].0 by {
            assert(pairs[j].0 != pairs[i].0);
        }
        assert(front[i] == pairs[i]);
        later_pairs_count(front, i, key);
    } else if front.len() > 0 {
        absent_keys_are_absent(front, key);
    }
    if forall|j: int| 0 <= j < pairs.len() ==> (#[trigger] pairs[j]).0 != key {
        absent_keys_are_absent(pairs, key);
    }
}

/// A key that no pair has is not there.
proof fn absent_keys_are_absent(pairs: Seq<(Seq<char>, Seq<char>)>, key: Seq<char>)
    ensures
        (forall|j: int| 0 <= j < pairs.len() ==> (#[trigger] pairs[j]).0 != key)
            ==> !labels::map_of(pairs).contains_key(key),
    decreases pairs.len(),
{
    if pairs.len() > 0 && (forall|j: int|
        0 <= j < pairs.len() ==> (#[trigger] pairs[j]).0 != key) {
        let front = pairs.drop_last();
        assert forall|j: int| 0 <= j < front.len() implies (#[trigger] front[j]).0 != key by {
            assert(pairs[j].0 != key);
        }
        absent_keys_are_absent(front, key);
        assert(pairs[pairs.len() - 1].0 != key);
    }
}

/// Labels are those of the pairs that they were made of, with one more where one is put in; what
/// was there under another key stays. A list of them has each once.
pub proof fn labels_are_kept(
    pairs: Vec<(String, String)>,
    made: Labels,
    key: String,
    value: String,
    more: Labels,
    listed: Vec<(String, String)>,
    other: Seq<char>,
)
    requires
        call_ensures(Labels::from_pairs, (pairs,), made),
        call_ensures(Labels::with, (made, key, value), more),
        call_ensures(Labels::to_pairs, (&made,), listed),
    ensures
        made@ == labels::map_of(pairs.deep_view()),
        more@.contains_key(key@) && more@[key@] == value@,
        other != key@ ==> (more@.contains_key(other) <==> made@.contains_key(other)),
        other != key@ && made@.contains_key(other) ==> more@[other] == made@[other],
        labels::map_of(listed.deep_view()) == made@,
        forall|i: int, j: int|
            0 <= i < j < listed.deep_view().len() ==> (#[trigger] listed.deep_view()[i]).0 != (
            #[trigger] listed.deep_view()[j]).0,
{
}

/// The services and their stores go by these names, each service and each bucket of lattices by one
/// of its own.
pub proof fn services_go_by_their_names()
    ensures
        crate::lattice_wrpc::LATTICE_SUBJECT@ == "wasmcloud.lattice.v1alpha1"@,
        crate::lattice_proto::LATTICE_SUBJECT@ == "wasmcloud.lattice.v1alpha1_proto"@,
        crate::lattice_wrpc::LATTICE_BUCKET@ == "WASMCLOUD_LATTICES"@,
        crate::lattice_proto::LATTICE_BUCKET@ == "WASMCLOUD_LATTICES_proto"@,
        crate::lattice_wrpc::OBJ_BUCKET@ == "WASMCLOUD_OBJECTS"@,
        crate::lattice_proto::OBJ_BUCKET@ == "WASMCLOUD_OBJECTS"@,
        crate::lattice_proto::NO_LATTICE@ == "No lattice specified"@,
        crate::lattice_wrpc::LATTICE_SUBJECT@ != crate::lattice_proto::LATTICE_SUBJECT@,
        crate::lattice_wrpc::LATTICE_BUCKET@ != crate::lattice_proto::LATTICE_BUCKET@,
{
    reveal_strlit("wasmcloud.lattice.v1alpha1");
    reveal_strlit("wasmcloud.lattice.v1alpha1_proto");
    reveal_strlit("WASMCLOUD_LATTICES");
    reveal_strlit("WASMCLOUD_LATTICES_proto");
    assert("wasmcloud.lattice.v1alpha1"@.len() != "wasmcloud.lattice.v1alpha1_proto"@.len());
    assert("WASMCLOUD_LATTICES"@.len() != "WASMCLOUD_LATTICES_proto"@.len());
}

} // verus!
