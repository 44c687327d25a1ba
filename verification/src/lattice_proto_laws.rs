//! What the lattice service on plain messages promises to those who use it: what each operation
//! does, effect by effect, and what is read afterwards, in terms of what was asked for.
use crate::config::{Args, Config};
use crate::control;
use crate::effects;
use crate::effects::{Effect, EffectView, Outcome, World};
use crate::headers;
use crate::ids;
use crate::labels;
use crate::lattice_proto;
use crate::lattice_proto::LatticeProtoApi;
use crate::lattice_proto_store;
use crate::proto;
use crate::proto::{Lattice, LatticeStatus, LatticeUpdate};
use crate::text;
use async_nats::HeaderMap;
use vstd::prelude::*;

verus! {

/// The effects of adding a lattice, of which there are at most so many.
pub open spec fn add_trace(
    api: LatticeProtoApi,
    world: World<proto::LatticeView>,
    step: lattice_proto::AddStepView,
    fresh: Seq<char>,
    context: control::ContextView,
    effects: nat,
) -> Seq<EffectView<proto::LatticeView>>
    decreases effects,
{
    match step {
        lattice_proto::AddStepView::Do(state, effect) if effects > 0 => {
            let (after, outcome) = effects::perform(world, effect);
            seq![effect] + add_trace(
                api,
                after,
                lattice_proto::add_next(api, state, outcome, fresh, context),
                fresh,
                context,
                (effects - 1) as nat,
            )
        },
        _ => Seq::empty(),
    }
}

/// The effects of changing a lattice, of which there are at most so many.
pub open spec fn update_trace(
    world: World<proto::LatticeView>,
    step: lattice_proto::UpdateStepView,
    fresh: Seq<char>,
    effects: nat,
) -> Seq<EffectView<proto::LatticeView>>
    decreases effects,
{
    match step {
        lattice_proto::UpdateStepView::Do(state, effect) if effects > 0 => {
            let (after, outcome) = effects::perform(world, effect);
            seq![effect] + update_trace(
                after,
                lattice_proto::update_next(state, outcome, fresh),
                fresh,
                (effects - 1) as nat,
            )
        },
        _ => Seq::empty(),
    }
}

/// The effects of deleting a lattice, of which there are at most so many.
pub open spec fn delete_trace(
    world: World<proto::LatticeView>,
    step: lattice_proto::DeleteStepView,
    fresh: Seq<char>,
    effects: nat,
) -> Seq<EffectView<proto::LatticeView>>
    decreases effects,
{
    match step {
        lattice_proto::DeleteStepView::Do(state, effect) if effects > 0 => {
            let (after, outcome) = effects::perform(world, effect);
            seq![effect] + delete_trace(
                after,
                lattice_proto::delete_next(state, outcome, fresh),
                fresh,
                (effects - 1) as nat,
            )
        },
        _ => Seq::empty(),
    }
}

/// The effects of reading lattices, of which there are at most so many.
pub open spec fn get_trace(
    world: World<proto::LatticeView>,
    step: lattice_proto::GetStepView,
    effects: nat,
) -> Seq<EffectView<proto::LatticeView>>
    decreases effects,
{
    match step {
        lattice_proto::GetStepView::Do(state, effect) if effects > 0 => {
            let (after, outcome) = effects::perform(world, effect);
            seq![effect] + get_trace(
                after,
                lattice_proto::get_next(state, outcome),
                (effects - 1) as nat,
            )
        },
        _ => Seq::empty(),
    }
}

/// The generator is given the lattice field by field: a text or a list that is empty is missing,
/// the phase is that of its number, and the labels and annotations are the same. It is given the
/// operator's key and the system account, and nothing else.
pub proof fn context_has_the_lattice(
    api: LatticeProtoApi,
    lattice: proto::LatticeView,
    meta: proto::MetadataView,
    spec: proto::LatticeSpecView,
    context: control::ContextView,
)
    requires
        lattice_proto::is_context(api, lattice, context),
        lattice.meta == Some(meta),
        lattice.spec == Some(spec),
    ensures
        context.lattice.metadata.name == meta.name,
        context.lattice.metadata.version == meta.version,
        context.lattice.metadata.uid == meta.uid,
        labels::map_of(context.lattice.metadata.labels) == meta.labels,
        labels::map_of(context.lattice.metadata.annotations) == meta.annotations,
        spec.account.len() > 0 ==> context.lattice.account == Some(spec.account),
        spec.account.len() == 0 ==> context.lattice.account is None,
        spec.description.len() > 0 ==> context.lattice.description == Some(spec.description),
        spec.description.len() == 0 ==> context.lattice.description is None,
        spec.signing_keys.len() > 0 ==> context.lattice.signing_keys == Some(spec.signing_keys),
        spec.signing_keys.len() == 0 ==> context.lattice.signing_keys is None,
        context.lattice.deletable == spec.deletable,
        spec.status matches Some(status) ==> context.lattice.status.phase == if status.phase == 2 {
            control::LatticePhase::Created
        } else if status.phase == 3 {
            control::LatticePhase::Deleting
        } else {
            control::LatticePhase::Provisioning
        },
        spec.status is None ==> context.lattice.status.phase == control::LatticePhase::Provisioning,
        context.additional_metadata is None,
        context.operator_key == api.operator_key.deep_view(),
        context.system_account == api.system_account.deep_view(),
{
}

/// Adding a lattice makes its two buckets, opens that of the lattices, and writes the lattice under
/// the name of the subject, in provision, with what the request specifies; a lattice of which
/// nothing is specified can be deleted. The metadata of the request is not kept. A generator is
/// given that lattice. What it makes of it, or the lattice as it is if there is none, is written
/// last, as created and with a new version; the answer is the version of the first write.
pub proof fn adding_writes_what_was_asked(
    api: LatticeProtoApi,
    world: World<proto::LatticeView>,
    lattice: proto::LatticeView,
    name: Seq<char>,
    version: Seq<char>,
    uid: Seq<char>,
    fresh: Seq<char>,
    context: control::ContextView,
)
    ensures
        ({
            let meta = proto::MetadataView {
                name,
                version,
                uid,
                labels: Map::empty(),
                annotations: Map::empty(),
            };
            let asked = match lattice.spec {
                Some(spec) => spec,
                None => proto::LatticeSpecView {
                    account: Seq::empty(),
                    signing_keys: Seq::empty(),
                    description: Seq::empty(),
                    status: None,
                    deletable: true,
                },
            };
            let first = proto::LatticeView {
                meta: Some(meta),
                spec: Some(
                    proto::LatticeSpecView {
                        account: asked.account,
                        signing_keys: asked.signing_keys,
                        description: asked.description,
                        status: Some(LatticeStatus { phase: 1 }),
                        deletable: asked.deletable,
                    },
                ),
            };
            let start = seq![
                EffectView::CreateBucket { bucket: "LATTICEDATA_"@ + name, replicas: 1 },
                EffectView::CreateBucket { bucket: "CONFIGDATA_"@ + name, replicas: 1 },
                EffectView::OpenBucket { bucket: "WASMCLOUD_LATTICES_proto"@ },
                EffectView::Put { key: name, lattice: first },
            ];
            let new = lattice_proto::prepared(lattice, name, version, uid);
            let step = lattice_proto::add_first(name, version, new);
            let done = add_trace(api, world, step, fresh, context, 7);
            let (after, result) = lattice_proto_store::run_add(
                api,
                world,
                step,
                fresh,
                context,
                7,
            );
            let revision = (world.revision + 1) as u64;
            &&& new == first
            &&& if api.component {
                let called = start.push(EffectView::Create { context });
                match (world.generator)(context) {
                    Err(e) => {
                        &&& done == called
                        &&& result == Some(
                            Err::<Seq<char>, Seq<char>>("Error invoking component: "@ + e),
                        )
                        &&& after.lattices == world.lattices.insert(name, Ok(first))
                    },
                    Ok(response) => {
                        let made = response.lattice;
                        let last = proto::LatticeView {
                            meta: Some(
                                proto::MetadataView {
                                    name: made.metadata.name,
                                    version: fresh,
                                    uid: made.metadata.uid,
                                    labels: labels::map_of(made.metadata.labels),
                                    annotations: labels::map_of(made.metadata.annotations),
                                },
                            ),
                            spec: Some(
                                proto::LatticeSpecView {
                                    account: if made.account is Some {
                                        made.account->Some_0
                                    } else {
                                        Seq::empty()
                                    },
                                    signing_keys: if made.signing_keys is Some {
                                        made.signing_keys->Some_0
                                    } else {
                                        Seq::empty()
                                    },
                                    description: if made.description is Some {
                                        made.description->Some_0
                                    } else {
                                        Seq::empty()
                                    },
                                    status: Some(LatticeStatus { phase: 2 }),
                                    deletable: made.deletable,
                                },
                            ),
                        };
                        &&& done == called.push(
                            EffectView::OpenBucket { bucket: "WASMCLOUD_LATTICES_proto"@ },
                        ).push(EffectView::Update { key: name, lattice: last, revision })
                        &&& result == Some(Ok::<Seq<char>, Seq<char>>(version))
                        &&& after.lattices == world.lattices.insert(name, Ok(last))
                    },
                }
            } else {
                let last = proto::LatticeView {
                    meta: Some(proto::MetadataView { version: fresh, ..meta }),
                    spec: Some(
                        proto::LatticeSpecView {
                            account: asked.account,
                            signing_keys: asked.signing_keys,
                            description: asked.description,
                            status: Some(LatticeStatus { phase: 2 }),
                            deletable: asked.deletable,
                        },
                    ),
                };
                &&& done == start.push(
                    EffectView::OpenBucket { bucket: "WASMCLOUD_LATTICES_proto"@ },
                ).push(EffectView::Update { key: name, lattice: last, revision })
                &&& result == Some(Ok::<Seq<char>, Seq<char>>(version))
                &&& after.lattices == world.lattices.insert(name, Ok(last))
            }
        }),
{
    reveal_with_fuel(add_trace, 8);
    reveal_with_fuel(lattice_proto_store::run_add, 8);
    lattice_proto_store::added_lattice_is_stored(
        api,
        world,
        lattice,
        name,
        version,
        uid,
        fresh,
        context,
    );
}

/// A lattice that is asked for with an account keeps it, though there is a generator, if the
/// generator leaves a lattice with an account as it is: what is read afterwards has the account,
/// the keys, the description and the flag of the request.
pub proof fn account_of_the_request_is_kept(
    api: LatticeProtoApi,
    world: World<proto::LatticeView>,
    lattice: proto::LatticeView,
    spec: proto::LatticeSpecView,
    name: Seq<char>,
    version: Seq<char>,
    uid: Seq<char>,
    fresh: Seq<char>,
    context: control::ContextView,
)
    requires
        lattice.spec == Some(spec),
        spec.account.len() > 0,
        lattice_proto::is_context(
            api,
            lattice_proto::prepared(lattice, name, version, uid),
            context,
        ),
        forall|c: control::ContextView|
            c.lattice.account is Some ==> #[trigger] (world.generator)(c) == Ok::<
                control::CreateLatticeResponseView,
                Seq<char>,
            >(control::CreateLatticeResponseView { lattice: c.lattice, account: None }),
    ensures
        ({
            let step = lattice_proto::add_first(
                name,
                version,
                lattice_proto::prepared(lattice, name, version, uid),
            );
            let (after, result) = lattice_proto_store::run_add(
                api,
                world,
                step,
                fresh,
                context,
                7,
            );
            &&& lattice_proto_store::run_get(
                after,
                lattice_proto::get_first(seq![name]),
                2,
            ).1 matches Some(Ok(read))
            &&& read.len() == 1
            &&& read[0].meta matches Some(meta)
            &&& read[0].spec matches Some(stored)
            &&& meta.name == name
            &&& meta.uid == uid
            &&& meta.version == fresh
            &&& stored.account == spec.account
            &&& stored.signing_keys == spec.signing_keys
            &&& stored.description == spec.description
            &&& stored.deletable == spec.deletable
            &&& stored.status == Some(LatticeStatus { phase: 2 })
        }),
{
    adding_writes_what_was_asked(api, world, lattice, name, version, uid, fresh, context);
    lattice_proto_store::added_lattice_is_read(
        api,
        world,
        lattice,
        name,
        version,
        uid,
        fresh,
        context,
    );
    let new = lattice_proto::prepared(lattice, name, version, uid);
    context_has_the_lattice(api, new, new.meta->Some_0, new.spec->Some_0, context);
    if spec.signing_keys.len() == 0 {
        assert(spec.signing_keys =~= Seq::empty());
    }
    if spec.description.len() == 0 {
        assert(spec.description =~= Seq::empty());
    }
}

/// Changing a lattice reads it under the name of the subject and writes it there, with a new
/// version, which is the answer. A field that is named has the value of the request. What is not
/// named stays, as do the name, the identifier, the labels, the annotations and the status.
pub proof fn changing_writes_what_is_named(
    world: World<proto::LatticeView>,
    name: Seq<char>,
    update: proto::LatticeUpdateView,
    paths: Seq<Seq<char>>,
    fresh: Seq<char>,
    meta: proto::MetadataView,
    spec: proto::LatticeSpecView,
)
    requires
        world.lattices.contains_key(name),
        world.lattices[name] == Ok::<proto::LatticeView, Seq<char>>(
            proto::LatticeView { meta: Some(meta), spec: Some(spec) },
        ),
    ensures
        ({
            let step = lattice_proto::update_first(name, Some(update), Some(paths));
            let (after, result) = lattice_proto_store::run_update(world, step, fresh, 3);
            &&& result == Some(Ok::<Seq<char>, Seq<char>>(fresh))
            &&& lattice_proto_store::run_get(
                after,
                lattice_proto::get_first(seq![name]),
                2,
            ).1 matches Some(Ok(read))
            &&& read.len() == 1
            &&& update_trace(world, step, fresh, 3) == seq![
                EffectView::OpenBucket { bucket: "WASMCLOUD_LATTICES_proto"@ },
                EffectView::Get { key: name },
                EffectView::Put { key: name, lattice: read[0] },
            ]
            &&& after.lattices == world.lattices.insert(name, Ok(read[0]))
            &&& read[0].meta == Some(proto::MetadataView { version: fresh, ..meta })
            &&& read[0].spec matches Some(now)
            &&& paths.contains("account"@) ==> now.account == update.account
            &&& paths.contains("description"@) ==> now.description == update.description
            &&& paths.contains("signing_keys"@) ==> now.signing_keys == update.signing_keys
            &&& paths.contains("deletable"@) ==> now.deletable == update.deletable
            &&& !paths.contains("account"@) ==> now.account == spec.account
            &&& !paths.contains("description"@) ==> now.description == spec.description
            &&& !paths.contains("signing_keys"@) ==> now.signing_keys == spec.signing_keys
            &&& !paths.contains("deletable"@) ==> now.deletable == spec.deletable
            &&& now.status == spec.status
        }),
{
    reveal_with_fuel(update_trace, 4);
    reveal_with_fuel(lattice_proto_store::run_update, 4);
    lattice_proto_store::updated_lattice_is_stored(world, name, update, paths, fresh);
    lattice_proto_store::updated_lattice_is_read(world, name, update, paths, fresh);
    let step = lattice_proto::update_first(name, Some(update), Some(paths));
    let (after, _) = lattice_proto_store::run_update(world, step, fresh, 3);
    assert(update_trace(world, step, fresh, 3) =~= seq![
        EffectView::OpenBucket { bucket: "WASMCLOUD_LATTICES_proto"@ },
        EffectView::Get { key: name },
        EffectView::Put { key: name, lattice: after.lattices[name]->Ok_0 },
    ]);
}

/// A change without paths or without values is refused, and nothing is done. A lattice that is not
/// there or that cannot be read is not changed.
pub proof fn change_of_nothing_is_refused(
    world: World<proto::LatticeView>,
    name: Seq<char>,
    update: Option<proto::LatticeUpdateView>,
    paths: Option<Seq<Seq<char>>>,
    fresh: Seq<char>,
)
    requires
        !lattice_proto_store::is_readable(world, name),
    ensures
        ({
            let step = lattice_proto::update_first(name, update, paths);
            let done = update_trace(world, step, fresh, 3);
            let (after, result) = lattice_proto_store::run_update(world, step, fresh, 3);
            &&& after == world
            &&& if paths is None {
                &&& done == Seq::<EffectView<proto::LatticeView>>::empty()
                &&& result == Some(Err::<Seq<char>, Seq<char>>("No update mask in request"@))
            } else if update is None {
                &&& done == Seq::<EffectView<proto::LatticeView>>::empty()
                &&& result == Some(Err::<Seq<char>, Seq<char>>("No update in request"@))
            } else {
                &&& done == seq![
                    EffectView::<proto::LatticeView>::OpenBucket {
                        bucket: "WASMCLOUD_LATTICES_proto"@,
                    },
                    EffectView::Get { key: name },
                ]
                &&& result == Some(
                    Err::<Seq<char>, Seq<char>>(
                        if world.lattices.contains_key(name) {
                            world.lattices[name]->Err_0
                        } else {
                            "Lattice not found"@
                        },
                    ),
                )
            }
        }),
{
    reveal_with_fuel(update_trace, 4);
    reveal_with_fuel(lattice_proto_store::run_update, 4);
}

/// Before a lattice is deleted, it is asked for its own applications, on a subject with its name.
/// If the answer is not an empty list, the deletion is refused and nothing is written, whatever is
/// answered for other lattices. Otherwise it is emptied and removed; the answer is the lattice, in
/// deletion and with a new version.
pub proof fn deleting_asks_for_applications(
    world: World<proto::LatticeView>,
    name: Seq<char>,
    meta: proto::MetadataView,
    spec: proto::LatticeSpecView,
    fresh: Seq<char>,
)
    requires
        world.lattices.contains_key(name),
        world.lattices[name] == Ok::<proto::LatticeView, Seq<char>>(
            proto::LatticeView { meta: Some(meta), spec: Some(spec) },
        ),
    ensures
        ({
            let step = lattice_proto::delete_first(name);
            let done = delete_trace(world, step, fresh, 5);
            let (after, result) = lattice_proto_store::run_delete(world, step, fresh, 5);
            let subject = "wadm.api."@ + name + ".model.list"@;
            let start: Seq<EffectView<proto::LatticeView>> = seq![
                EffectView::OpenBucket { bucket: "WASMCLOUD_LATTICES_proto"@ },
                EffectView::Get { key: name },
                EffectView::Request { subject, payload: Seq::<u8>::empty() },
            ];
            if (world.applications)(subject, Seq::empty()) == seq![0x5bu8, 0x5du8] {
                &&& done == start.push(EffectView::PutEmpty { key: name }).push(
                    EffectView::Delete { key: name },
                )
                &&& result == Some(
                    Ok::<proto::LatticeView, Seq<char>>(
                        proto::LatticeView {
                            meta: Some(proto::MetadataView { version: fresh, ..meta }),
                            spec: Some(
                                proto::LatticeSpecView {
                                    status: Some(LatticeStatus { phase: 3 }),
                                    ..spec
                                },
                            ),
                        },
                    ),
                )
                &&& after.lattices == world.lattices.remove(name)
            } else {
                &&& done == start
                &&& result == Some(
                    Err::<proto::LatticeView, Seq<char>>(
                        "Lattice has applications. Delete them first before deleting the lattice"@,
                    ),
                )
                &&& after == world
            }
        }),
{
    reveal_with_fuel(delete_trace, 6);
    reveal_with_fuel(lattice_proto_store::run_delete, 6);
    lattice_proto_store::deleted_lattice_is_gone(world, name, fresh);
}

/// A lattice that is not there or that cannot be read is not deleted: it is looked for, and no
/// question is asked.
pub proof fn deletion_of_nothing_is_refused(
    world: World<proto::LatticeView>,
    name: Seq<char>,
    fresh: Seq<char>,
)
    requires
        !lattice_proto_store::is_readable(world, name),
    ensures
        ({
            let step = lattice_proto::delete_first(name);
            let (after, result) = lattice_proto_store::run_delete(world, step, fresh, 5);
            &&& after == world
            &&& delete_trace(world, step, fresh, 5) == seq![
                EffectView::<proto::LatticeView>::OpenBucket {
                    bucket: "WASMCLOUD_LATTICES_proto"@,
                },
                EffectView::Get { key: name },
            ]
            &&& result == Some(
                Err::<proto::LatticeView, Seq<char>>(
                    if world.lattices.contains_key(name) {
                        world.lattices[name]->Err_0
                    } else {
                        "Lattice not found"@
                    },
                ),
            )
        }),
{
    reveal_with_fuel(delete_trace, 6);
    reveal_with_fuel(lattice_proto_store::run_delete, 6);
}

/// Whether a lattice can be deleted depends on the answer for its own applications alone.
pub proof fn only_own_applications_count(
    a: World<proto::LatticeView>,
    b: World<proto::LatticeView>,
    name: Seq<char>,
    fresh: Seq<char>,
)
    requires
        a.lattices == b.lattices,
        (a.applications)("wadm.api."@ + name + ".model.list"@, Seq::empty()) == (b.applications)(
            "wadm.api."@ + name + ".model.list"@,
            Seq::empty(),
        ),
    ensures
        ({
            let step = lattice_proto::delete_first(name);
            let (after_a, result_a) = lattice_proto_store::run_delete(a, step, fresh, 5);
            let (after_b, result_b) = lattice_proto_store::run_delete(b, step, fresh, 5);
            &&& result_a == result_b
            &&& after_a.lattices == after_b.lattices
        }),
{
    lattice_proto_store::deleted_lattice_is_gone(a, name, fresh);
    lattice_proto_store::deleted_lattice_is_gone(b, name, fresh);
}

/// Reading goes on from where it is, one read for each name.
proof fn reads_go_on(
    world: World<proto::LatticeView>,
    state: lattice_proto::GetLatticesView,
    effects: nat,
)
    requires
        state.open,
        state.lattices.len() <= state.names.len(),
        forall|i: int|
            0 <= i < state.names.len() ==> lattice_proto_store::is_readable(
                world,
                #[trigger] state.names[i],
            ),
        effects == state.names.len() - state.lattices.len(),
    ensures
        get_trace(world, lattice_proto::get_more(state), effects) == Seq::new(
            effects,
            |i: int|
                EffectView::<proto::LatticeView>::Get {
                    key: state.names[state.lattices.len() + i],
                },
        ),
    decreases effects,
{
    let at = state.lattices.len() as int;
    let whole = Seq::new(
        effects,
        |i: int| EffectView::<proto::LatticeView>::Get { key: state.names[at + i] },
    );
    if at < state.names.len() {
        let next = lattice_proto::GetLatticesView {
            lattices: state.lattices.push(world.lattices[state.names[at]]->Ok_0),
            ..state
        };
        assert(lattice_proto_store::is_readable(world, state.names[at]));
        reads_go_on(world, next, (effects - 1) as nat);
        assert(lattice_proto::GetLatticesView { open: true, ..state } == state);
        assert(get_trace(world, lattice_proto::get_more(state), effects) =~= whole);
    } else {
        assert(get_trace(world, lattice_proto::get_more(state), effects) =~= whole);
    }
}

/// Reading lattices that can be read opens their bucket, reads each by its name and in turn, and
/// gives for each name what is stored under that name.
pub proof fn reading_gives_each_by_name(world: World<proto::LatticeView>, names: Seq<Seq<char>>)
    requires
        forall|i: int|
            0 <= i < names.len() ==> lattice_proto_store::is_readable(world, #[trigger] names[i]),
    ensures
        ({
            let step = lattice_proto::get_first(names);
            &&& lattice_proto_store::run_get(world, step, names.len() + 1).0 == world
            &&& lattice_proto_store::run_get(world, step, names.len() + 1).1 matches Some(Ok(read))
            &&& read.len() == names.len()
            &&& forall|i: int|
                0 <= i < names.len() ==> world.lattices[#[trigger] names[i]] == Ok::<
                    proto::LatticeView,
                    Seq<char>,
                >(read[i])
            &&& get_trace(world, step, names.len() + 1) == seq![
                EffectView::<proto::LatticeView>::OpenBucket { bucket: "WASMCLOUD_LATTICES_proto"@ },
            ] + Seq::new(names.len(), |i: int| EffectView::Get { key: names[i] })
        }),
{
    lattice_proto_store::stored_lattices_are_read(world, names, names.len() as int);
    assert forall|i: int| 0 <= i < names.len() implies world.lattices[#[trigger] names[i]] == Ok::<
        proto::LatticeView,
        Seq<char>,
    >(lattice_proto_store::lattices_of(world, names)[i]) by {
        assert(lattice_proto_store::is_readable(world, names[i]));
    }
    let closed = lattice_proto::GetLatticesView { open: false, names, lattices: Seq::empty() };
    let open = lattice_proto::GetLatticesView { open: true, ..closed };
    reads_go_on(world, open, names.len());
    assert(lattice_proto::get_more(closed) == lattice_proto::get_more(open)) by {
        assert(lattice_proto::GetLatticesView { open: true, ..open } == open);
    }
    reveal_with_fuel(get_trace, 2);
    assert(Seq::new(
        names.len(),
        |i: int| EffectView::<proto::LatticeView>::Get { key: names[0 + i] },
    ) =~= Seq::new(names.len(), |i: int| EffectView::<proto::LatticeView>::Get { key: names[i] }));
}

/// A lattice that is made ready to be written has the name of the subject, the version and the
/// identifier that were drawn and nothing else for metadata, and all that the request specifies, in
/// provision. One of which nothing is specified can be deleted.
pub proof fn preparing_keeps_the_request(
    lattice: Lattice,
    name: &str,
    version: String,
    uid: String,
    r: Lattice,
)
    requires
        call_ensures(lattice_proto::prepare, (lattice, name, version, uid), r),
    ensures
        r.meta matches Some(meta) && meta.name@ == name@ && meta.version@ == version@ && meta.uid@
            == uid@ && meta.labels@ == Map::<Seq<char>, Seq<char>>::empty() && meta.annotations@
            == Map::<Seq<char>, Seq<char>>::empty(),
        r.spec is Some,
        r.spec->Some_0.status == Some(LatticeStatus { phase: 1 }),
        lattice.spec matches Some(spec) ==> {
            &&& r.spec->Some_0.account@ == spec.account@
            &&& r.spec->Some_0.signing_keys.deep_view() == spec.signing_keys.deep_view()
            &&& r.spec->Some_0.description@ == spec.description@
            &&& r.spec->Some_0.deletable == spec.deletable
        },
        lattice.spec is None ==> {
            &&& r.spec->Some_0.account@.len() == 0
            &&& r.spec->Some_0.signing_keys@.len() == 0
            &&& r.spec->Some_0.description@.len() == 0
            &&& r.spec->Some_0.deletable
        },
{
    assert(r@.meta == r.meta.deep_view() && r@.spec == r.spec.deep_view());
    assert(r@.meta->Some_0 == r.meta->Some_0@);
    assert(r@.spec->Some_0 == r.spec->Some_0@);
    if lattice.spec is Some {
        assert(lattice@.spec == Some(lattice.spec->Some_0@));
    } else {
        assert(lattice@.spec is None);
        assert(r.spec->Some_0.signing_keys.deep_view().len() == r.spec->Some_0.signing_keys@.len());
    }
}

/// The generator is given each field of the lattice; an empty text or list is missing then.
pub proof fn generator_is_given_the_lattice(
    api: LatticeProtoApi,
    lattice: Lattice,
    r: control::Context,
)
    requires
        call_ensures(LatticeProtoApi::generator_context, (&api, lattice), r),
        lattice.meta is Some,
        lattice.spec is Some,
    ensures
        r.lattice.metadata.name@ == lattice.meta->Some_0.name@,
        r.lattice.metadata.version@ == lattice.meta->Some_0.version@,
        r.lattice.metadata.uid@ == lattice.meta->Some_0.uid@,
        labels::map_of(r.lattice.metadata.labels.deep_view()) == lattice.meta->Some_0.labels@,
        labels::map_of(r.lattice.metadata.annotations.deep_view())
            == lattice.meta->Some_0.annotations@,
        r.lattice.account.deep_view() == if lattice.spec->Some_0.account@.len() > 0 {
            Some(lattice.spec->Some_0.account@)
        } else {
            None
        },
        r.lattice.description.deep_view() == if lattice.spec->Some_0.description@.len() > 0 {
            Some(lattice.spec->Some_0.description@)
        } else {
            None
        },
        r.lattice.signing_keys.deep_view() == if lattice.spec->Some_0.signing_keys@.len() > 0 {
            Some(lattice.spec->Some_0.signing_keys.deep_view())
        } else {
            None
        },
        r.lattice.deletable == lattice.spec->Some_0.deletable,
        r.additional_metadata is None,
        r.operator_key.deep_view() == api.operator_key.deep_view(),
        r.system_account.deep_view() == api.system_account.deep_view(),
{
    assert(lattice@.meta == Some(lattice.meta->Some_0@));
    assert(lattice@.spec == Some(lattice.spec->Some_0@));
    assert(lattice.spec->Some_0.signing_keys.deep_view().len()
        == lattice.spec->Some_0.signing_keys@.len());
    assert(r@.lattice == r.lattice@);
    assert(r.lattice@.metadata == r.lattice.metadata@);
    assert(r@.additional_metadata == r.additional_metadata.deep_view());
}

/// Changing a lattice sets each field that is named to the value of the request, and no other.
pub proof fn change_sets_what_is_named(
    lattice: &mut Lattice,
    update: LatticeUpdate,
    paths: Vec<String>,
)
    requires
        call_ensures(lattice_proto::apply_update, (lattice, &update, &paths), ()),
        old(lattice).spec is Some,
    ensures
        ({
            let named = paths.deep_view();
            let before = old(lattice).spec->Some_0;
            let after = final(lattice).spec->Some_0;
            &&& final(lattice).spec is Some
            &&& after.account@ == if named.contains("account"@) {
                update.account@
            } else {
                before.account@
            }
            &&& after.description@ == if named.contains("description"@) {
                update.description@
            } else {
                before.description@
            }
            &&& after.signing_keys.deep_view() == if named.contains("signing_keys"@) {
                update.signing_keys.deep_view()
            } else {
                before.signing_keys.deep_view()
            }
            &&& after.deletable == if named.contains("deletable"@) {
                update.deletable
            } else {
                before.deletable
            }
            &&& after.status == before.status
            &&& final(lattice).meta.deep_view() == old(lattice).meta.deep_view()
        }),
{
    assert(old(lattice)@.spec == Some(old(lattice).spec->Some_0@));
    assert(final(lattice)@.spec == final(lattice).spec.deep_view());
    assert(final(lattice)@.spec == Some(final(lattice).spec->Some_0@));
}

/// A request to add a lattice has to have one. The first thing that is done is to create the bucket
/// of its data.
pub proof fn adding_starts_with_the_request(
    api: LatticeProtoApi,
    name: &str,
    lattice: Option<Lattice>,
    r: lattice_proto::AddStep,
)
    requires
        call_ensures(LatticeProtoApi::add_lattice, (&api, name, lattice), r),
    ensures
        lattice is None ==> (r matches lattice_proto::AddStep::Finish(Err(e)) && e@
            == "No lattice in request"@),
        lattice matches Some(asked) ==> {
            &&& r matches lattice_proto::AddStep::Do(
                state,
                Effect::CreateBucket { bucket, replicas },
            )
            &&& bucket@ == "LATTICEDATA_"@ + name@
            &&& replicas == 1
            &&& state.stage == lattice_proto::AddStage::DataBucket
            &&& state.name@ == name@
            &&& ids::is_ulid(state.version@)
            &&& state.lattice.meta matches Some(meta)
            &&& meta.name@ == name@
            &&& meta.version@ == state.version@
            &&& ids::is_uuid(meta.uid@)
            &&& state.lattice.spec matches Some(spec)
            &&& spec.status == Some(LatticeStatus { phase: 1 })
            &&& asked.spec matches Some(s) ==> spec.account@ == s.account@ && spec.description@
                == s.description@ && spec.signing_keys.deep_view() == s.signing_keys.deep_view()
                && spec.deletable == s.deletable
            &&& asked.spec is None ==> spec.deletable
        },
{
    if lattice is Some {
        let asked = lattice->Some_0;
        if asked.spec is Some {
            assert(asked@.spec == Some(asked.spec->Some_0@));
        } else {
            assert(asked@.spec is None);
        }
        if let lattice_proto::AddStep::Do(state, effect) = r {
            assert(r@ == lattice_proto::AddStepView::Do(state@, effect@));
            assert(state@.lattice == state.lattice@);
            assert(state.lattice@.meta == state.lattice.meta.deep_view());
            assert(state.lattice@.spec == state.lattice.spec.deep_view());
            assert(state.lattice@.meta->Some_0 == state.lattice.meta->Some_0@);
            assert(state.lattice@.spec->Some_0 == state.lattice.spec->Some_0@);
        }
    }
}

/// The steps of the operations are those by which the laws on whole operations run them.
pub proof fn steps_are_those_of_the_runs(
    api: LatticeProtoApi,
    name: &str,
    lattice: Lattice,
    started: lattice_proto::AddStep,
    adding: lattice_proto::AddLattice,
    added: lattice_proto::AddStep,
    changing: lattice_proto::UpdateLattice,
    version: String,
    changed: lattice_proto::UpdateStep,
    deleting: lattice_proto::DeleteLattice,
    deleted: lattice_proto::DeleteStep,
    reading: lattice_proto::GetLattices,
    read: lattice_proto::GetStep,
    outcome: Outcome<Lattice>,
)
    ensures
        call_ensures(LatticeProtoApi::add_lattice, (&api, name, Some(lattice)), started)
            ==> exists|version: Seq<char>, uid: Seq<char>|
            ids::is_ulid(version) && ids::is_uuid(uid) && started@ == lattice_proto::add_first(
                name@,
                version,
                #[trigger] lattice_proto::prepared(lattice@, name@, version, uid),
            ),
        call_ensures(LatticeProtoApi::add_lattice_with, (&api, adding, outcome, version), added)
            ==> exists|context: control::ContextView|
            (adding.stage == lattice_proto::AddStage::Writing && outcome is Written
                && api.component ==> lattice_proto::is_context(api, adding.lattice@, context))
                && added@ == #[trigger] lattice_proto::add_next(
                api,
                adding@,
                outcome@,
                version@,
                context,
            ),
        call_ensures(LatticeProtoApi::add_lattice_next, (&api, adding, outcome), added)
            ==> exists|fresh: Seq<char>, context: control::ContextView|
            ids::is_ulid(fresh) && (adding.stage == lattice_proto::AddStage::Writing
                && outcome is Written && api.component ==> lattice_proto::is_context(
                api,
                adding.lattice@,
                context,
            )) && added@ == #[trigger] lattice_proto::add_next(
                api,
                adding@,
                outcome@,
                fresh,
                context,
            ),
        call_ensures(
            LatticeProtoApi::update_lattice_with,
            (&api, changing, outcome, version),
            changed,
        ) ==> changed@ == lattice_proto::update_next(changing@, outcome@, version@),
        call_ensures(LatticeProtoApi::update_lattice_next, (&api, changing, outcome), changed)
            ==> exists|fresh: Seq<char>|
            ids::is_ulid(fresh) && changed@ == #[trigger] lattice_proto::update_next(
                changing@,
                outcome@,
                fresh,
            ),
        call_ensures(
            LatticeProtoApi::delete_lattice_with,
            (&api, deleting, outcome, version),
            deleted,
        ) ==> deleted@ == lattice_proto::delete_next(deleting@, outcome@, version@),
        call_ensures(LatticeProtoApi::delete_lattice_next, (&api, deleting, outcome), deleted)
            ==> exists|fresh: Seq<char>|
            ids::is_ulid(fresh) && deleted@ == #[trigger] lattice_proto::delete_next(
                deleting@,
                outcome@,
                fresh,
            ),
        call_ensures(LatticeProtoApi::get_lattices_next, (&api, reading, outcome), read) ==> read@
            == lattice_proto::get_next(reading@, outcome@),
{
}

/// Before a lattice that was found is deleted, the request that is sent is empty and goes to the
/// subject with the name of that lattice.
pub proof fn applications_are_asked_for_by_name(
    api: LatticeProtoApi,
    state: lattice_proto::DeleteLattice,
    found: Lattice,
    version: String,
    r: lattice_proto::DeleteStep,
)
    requires
        call_ensures(
            LatticeProtoApi::delete_lattice_with,
            (&api, state, Outcome::Found(Some(found)), version),
            r,
        ),
        state.stage == lattice_proto::DeleteStage::Reading,
    ensures
        r matches lattice_proto::DeleteStep::Do(next, Effect::Request { subject, payload })
            && subject@ == "wadm.api."@ + state.name@ + ".model.list"@ && payload@.len() == 0
            && next.name@ == state.name@ && next.stage == lattice_proto::DeleteStage::Asking,
{
    if let lattice_proto::DeleteStep::Do(next, effect) = r {
        assert(r@ == lattice_proto::DeleteStepView::Do(next@, effect@));
    }
}

/// Changing, deleting and reading lattices start by opening their bucket, and keep in mind what was
/// asked for.
pub proof fn operations_start_with_the_bucket(
    api: LatticeProtoApi,
    name: &str,
    update: LatticeUpdate,
    paths: Vec<String>,
    changed: lattice_proto::UpdateStep,
    deleted: lattice_proto::DeleteStep,
    names: Vec<String>,
    read: lattice_proto::GetStep,
)
    requires
        call_ensures(
            LatticeProtoApi::update_lattice,
            (&api, name, Some(update), Some(paths)),
            changed,
        ),
        call_ensures(LatticeProtoApi::delete_lattice, (&api, name), deleted),
        call_ensures(LatticeProtoApi::get_lattices, (&api, names), read),
    ensures
        changed matches lattice_proto::UpdateStep::Do(state, Effect::OpenBucket { bucket }) && {
            &&& bucket@ == "WASMCLOUD_LATTICES_proto"@
            &&& state.stage == lattice_proto::UpdateStage::Opening
            &&& state.name@ == name@
            &&& state.paths.deep_view() == paths.deep_view()
            &&& state.update.account@ == update.account@
            &&& state.update.description@ == update.description@
            &&& state.update.signing_keys.deep_view() == update.signing_keys.deep_view()
            &&& state.update.deletable == update.deletable
        },
        deleted matches lattice_proto::DeleteStep::Do(state, Effect::OpenBucket { bucket })
            && bucket@ == "WASMCLOUD_LATTICES_proto"@ && state.stage
            == lattice_proto::DeleteStage::Opening && state.name@ == name@,
        read matches lattice_proto::GetStep::Do(state, Effect::OpenBucket { bucket }) && bucket@
            == "WASMCLOUD_LATTICES_proto"@ && !state.open && state.names.deep_view()
            == names.deep_view() && state.lattices@.len() == 0,
{
    if let lattice_proto::UpdateStep::Do(state, effect) = changed {
        assert(changed@ == lattice_proto::UpdateStepView::Do(state@, effect@));
        assert(state@.update == state.update@);
    }
    if let lattice_proto::DeleteStep::Do(state, effect) = deleted {
        assert(deleted@ == lattice_proto::DeleteStepView::Do(state@, effect@));
    }
    if let lattice_proto::GetStep::Do(state, effect) = read {
        assert(read@ == lattice_proto::GetStepView::Do(state@, effect@));
        assert(state@.lattices.len() == state.lattices@.len());
    }
}

/// An effect that fails ends an operation with that failure; one of reading a lattice says so.
pub proof fn failure_ends_operations(
    api: LatticeProtoApi,
    adding: lattice_proto::AddLatticeView,
    context: control::ContextView,
    changing: lattice_proto::UpdateLatticeView,
    fresh: Seq<char>,
    deleting: lattice_proto::DeleteLatticeView,
    reading: lattice_proto::GetLatticesView,
    e: Seq<char>,
)
    ensures
        lattice_proto::add_next(api, adding, effects::OutcomeView::Failed(e), fresh, context)
            == lattice_proto::AddStepView::Finish(Err(e)),
        lattice_proto::update_next(changing, effects::OutcomeView::Failed(e), fresh)
            == lattice_proto::UpdateStepView::Finish(
            Err(
                if changing.stage == lattice_proto::UpdateStage::Reading {
                    "Error getting lattice: "@ + e
                } else {
                    e
                },
            ),
        ),
        lattice_proto::delete_next(deleting, effects::OutcomeView::Failed(e), fresh)
            == lattice_proto::DeleteStepView::Finish(
            Err(
                if deleting.stage == lattice_proto::DeleteStage::Reading {
                    "Error getting lattice: "@ + e
                } else {
                    e
                },
            ),
        ),
        lattice_proto::get_next(reading, effects::OutcomeView::Failed(e))
            == lattice_proto::GetStepView::Finish(
            Err(
                if reading.open {
                    "Failed to get lattice "@ + reading.names[reading.lattices.len() as int]
                        + ", "@ + e
                } else {
                    e
                },
            ),
        ),
{
}

/// The tokens of a subject of four and of five tokens, of which none contains a dot.
proof fn subject_tokens(
    a: Seq<char>,
    b: Seq<char>,
    c: Seq<char>,
    operation: Seq<char>,
    name: Seq<char>,
)
    requires
        !a.contains('.'),
        !b.contains('.'),
        !c.contains('.'),
        !operation.contains('.'),
        !name.contains('.'),
    ensures
        text::split_on(a.push('.') + b.push('.') + c.push('.') + operation, '.') == seq![
            a,
            b,
            c,
            operation,
        ],
        text::split_on(
            a.push('.') + b.push('.') + c.push('.') + operation.push('.') + name,
            '.',
        ) == seq![a, b, c, operation, name],
{
    let five = seq![a, b, c, operation, name];
    let four = seq![a, b, c, operation];
    text::split_of_join_is_the_tokens(five, '.');
    text::split_of_join_is_the_tokens(four, '.');
    reveal_with_fuel(text::join, 6);
    assert(five.drop_last() =~= four);
    assert(four.drop_last() =~= seq![a, b, c]);
    assert(seq![a, b, c].drop_last() =~= seq![a, b]);
    assert(seq![a, b].drop_last() =~= seq![a]);
    assert(text::join(four, '.') =~= a.push('.') + b.push('.') + c.push('.') + operation);
    assert(text::join(five, '.') =~= a.push('.') + b.push('.') + c.push('.') + operation.push('.')
        + name);
}

/// A protobuf message on a subject of five tokens goes to the operation that the fourth token asks
/// for, on the lattice that the fifth names; an operation that there is not is named. On a subject
/// of four tokens only watching is offered, and anything else lacks a lattice.
pub proof fn messages_go_where_their_subject_says(
    api: LatticeProtoApi,
    a: Seq<char>,
    b: Seq<char>,
    c: Seq<char>,
    operation: Seq<char>,
    name: Seq<char>,
    subject: &str,
    headers: HeaderMap,
    r: Result<lattice_proto::Route, String>,
)
    requires
        call_ensures(LatticeProtoApi::handle_msg, (&api, subject, Some(&headers)), r),
        headers::header_values(headers).contains_key("Content-Type"@),
        headers::header_values(headers)["Content-Type"@].len() > 0,
        headers::header_values(headers)["Content-Type"@][0] == "application/x-protobuf"@,
        !a.contains('.'),
        !b.contains('.'),
        !c.contains('.'),
        !operation.contains('.'),
        !name.contains('.'),
    ensures
        subject@ == a.push('.') + b.push('.') + c.push('.') + operation.push('.') + name ==> {
            &&& operation == "add"@ ==> (r matches Ok(
                lattice_proto::Route::Operation(lattice_proto::Operation::Add(n)),
            ) && n@ == name)
            &&& operation == "update"@ ==> (r matches Ok(
                lattice_proto::Route::Operation(lattice_proto::Operation::Update(n)),
            ) && n@ == name)
            &&& operation == "delete"@ ==> (r matches Ok(
                lattice_proto::Route::Operation(lattice_proto::Operation::Delete(n)),
            ) && n@ == name)
            &&& operation == "get"@ ==> (r matches Ok(
                lattice_proto::Route::Operation(lattice_proto::Operation::Get),
            ))
            &&& operation == "watch"@ ==> (r matches Ok(
                lattice_proto::Route::Operation(lattice_proto::Operation::Watch),
            ))
            &&& operation != "add"@ && operation != "update"@ && operation != "delete"@ && operation
                != "get"@ && operation != "watch"@ ==> (r matches Ok(
                lattice_proto::Route::Operation(lattice_proto::Operation::Invalid(o)),
            ) && o@ == operation)
        },
        subject@ == a.push('.') + b.push('.') + c.push('.') + operation ==> {
            &&& operation == "watch"@ ==> (r matches Ok(
                lattice_proto::Route::Operation(lattice_proto::Operation::Watch),
            ))
            &&& operation != "watch"@ ==> (r matches Ok(lattice_proto::Route::NoLattice))
        },
{
    reveal_strlit("add");
    reveal_strlit("update");
    reveal_strlit("delete");
    reveal_strlit("get");
    reveal_strlit("watch");
    assert("add"@[0] != "get"@[0]);
    assert("update"@[0] != "delete"@[0]);
    assert("add"@.len() == 3 && "get"@.len() == 3 && "update"@.len() == 6 && "delete"@.len() == 6
        && "watch"@.len() == 5);
    subject_tokens(a, b, c, operation, name);
    if let Ok(route) = r {
        assert(route@ == lattice_proto::route_of(subject@));
    }
}

/// A message without headers, without a content type, or with another one than that of protobuf
/// messages is refused with a text that says which.
pub proof fn other_messages_are_refused(
    api: LatticeProtoApi,
    subject: &str,
    headers: HeaderMap,
    bare: Result<lattice_proto::Route, String>,
    r: Result<lattice_proto::Route, String>,
)
    requires
        call_ensures(LatticeProtoApi::handle_msg, (&api, subject, None), bare),
        call_ensures(LatticeProtoApi::handle_msg, (&api, subject, Some(&headers)), r),
    ensures
        bare matches Err(e) && e@ == "No headers -- content-type header is missing"@,
        !headers::header_values(headers).contains_key("Content-Type"@) ==> (r matches Err(e) && e@
            == "No content type header"@),
        headers::header_values(headers).contains_key("Content-Type"@)
            && headers::header_values(headers)["Content-Type"@].len() > 0
            && headers::header_values(headers)["Content-Type"@][0] != "application/x-protobuf"@ ==> (
        r matches Err(e) && e@ == "Invalid content type: "@ + headers::header_values(
            headers,
        )["Content-Type"@][0]),
{
}

/// A result is replied as it is, under one header that says that it is a protobuf message; a
/// failure is replied as its text; no result is not replied.
pub proof fn results_are_replied(
    api: LatticeProtoApi,
    result: Result<Option<Vec<u8>>, String>,
    r: lattice_proto::Reply,
    operation: &str,
    invalid: String,
    made: HeaderMap,
)
    requires
        call_ensures(LatticeProtoApi::reply, (&api, result), r),
        call_ensures(LatticeProtoApi::invalid_operation, (&api, operation), invalid),
        call_ensures(lattice_proto::content_type_headers, (), made),
    ensures
        result matches Ok(Some(payload)) ==> (r matches lattice_proto::Reply::Message(h, bytes)
            && bytes@ == payload@ && headers::header_values(h) == map![
                "Content-Type"@ => seq!["application/x-protobuf"@]
            ]),
        result matches Ok(None) ==> r is Nothing,
        result matches Err(e) ==> (r matches lattice_proto::Reply::Text(text) && text@ == e@),
        invalid@ == "Invalid operation: "@ + operation@,
        headers::header_values(made) == map!["Content-Type"@ => seq!["application/x-protobuf"@]],
{
}

/// Only one who can be replied to can watch; without lattices in particular every key is watched,
/// otherwise those of the given ones.
pub proof fn watching_follows_the_request(
    api: LatticeProtoApi,
    can_reply: bool,
    asked: Vec<String>,
    r: Result<Vec<String>, String>,
)
    requires
        call_ensures(LatticeProtoApi::watch_lattices, (&api, can_reply, asked), r),
    ensures
        r is Ok <==> can_reply,
        r matches Err(e) ==> e@ == "No reply-to subject"@,
        r matches Ok(keys) ==> keys.deep_view() == if asked@.len() == 0 {
            seq![">"@]
        } else {
            asked.deep_view()
        },
{
}

/// A lattice that was written is sent as it is, under the header of protobuf messages, and any
/// other entry is passed over. Watching goes on as long as what is sent arrives; it ends quietly
/// when no one responds, in time or at all, and with the failure when sending fails otherwise.
pub proof fn watchers_are_sent_what_is_written(
    api: LatticeProtoApi,
    event: lattice_proto::WatchEvent,
    r: lattice_proto::WatchAction,
)
    requires
        call_ensures(LatticeProtoApi::watch_next, (&api, event), r),
    ensures
        event matches lattice_proto::WatchEvent::Entry(Ok(lattice)) ==> (
        r matches lattice_proto::WatchAction::Send(h, sent) && sent == lattice
            && headers::header_values(h) == map![
                "Content-Type"@ => seq!["application/x-protobuf"@]
            ]),
        event matches lattice_proto::WatchEvent::Entry(Err(_)) ==> r is Wait,
        event matches lattice_proto::WatchEvent::Sent(Ok(_)) ==> r is Wait,
        event matches lattice_proto::WatchEvent::Sent(Err(lattice_proto::SendError::NoResponders))
            ==> (r matches lattice_proto::WatchAction::Finish(Ok(None))),
        event matches lattice_proto::WatchEvent::Sent(Err(lattice_proto::SendError::TimedOut)) ==> (
        r matches lattice_proto::WatchAction::Finish(Ok(None))),
        event matches lattice_proto::WatchEvent::Sent(Err(lattice_proto::SendError::Other(e))) ==> (
        r matches lattice_proto::WatchAction::Finish(Err(text)) && text@ == e@),
        event is Ended ==> (r matches lattice_proto::WatchAction::Finish(Ok(None))),
{
}

/// The service has a generator exactly if one is configured, with the keys of that configuration,
/// each in its place.
pub proof fn service_has_the_configured_keys(config: Config, args: Args, r: LatticeProtoApi)
    requires
        call_ensures(LatticeProtoApi::new, (&config, &args), r),
    ensures
        r.nats_url@ == args.nats_url@,
        r.component <==> config.lattices is Some,
        config.lattices matches Some(l) ==> r.operator_key.deep_view() == Some(
            l.operator_public_key@,
        ) && r.system_account.deep_view() == Some(l.wasmcloud_system_account@),
        config.lattices is None ==> r.operator_key is None && r.system_account is None,
{
}

/// The lattice that a subject is about is its fifth token; one of four tokens is about none.
pub proof fn subjects_name_lattices(
    api: LatticeProtoApi,
    a: Seq<char>,
    b: Seq<char>,
    c: Seq<char>,
    operation: Seq<char>,
    name: Seq<char>,
    subject: &str,
    r: Option<String>,
)
    requires
        call_ensures(LatticeProtoApi::lattice_from_subject, (&api, subject), r),
        !a.contains('.'),
        !b.contains('.'),
        !c.contains('.'),
        !operation.contains('.'),
        !name.contains('.'),
    ensures
        subject@ == a.push('.') + b.push('.') + c.push('.') + operation.push('.') + name ==> (
        r matches Some(n) && n@ == name),
        subject@ == a.push('.') + b.push('.') + c.push('.') + operation ==> r is None,
{
    subject_tokens(a, b, c, operation, name);
}

/// Whatever is asked for, the service starts on it; a message has to have the subject of one only
/// if it is taken for one.
pub proof fn every_request_is_taken(
    api: LatticeProtoApi,
    config: Config,
    args: Args,
    name: &str,
    lattice: Option<Lattice>,
    update: Option<LatticeUpdate>,
    paths: Option<Vec<String>>,
    names: Vec<String>,
    can_reply: bool,
    event: lattice_proto::WatchEvent,
    result: Result<Option<Vec<u8>>, String>,
    headers: Option<&HeaderMap>,
)
    ensures
        call_requires(LatticeProtoApi::new, (&config, &args)),
        call_requires(LatticeProtoApi::add_lattice, (&api, name, lattice)),
        call_requires(LatticeProtoApi::update_lattice, (&api, name, update, paths)),
        call_requires(LatticeProtoApi::delete_lattice, (&api, name)),
        call_requires(LatticeProtoApi::get_lattices, (&api, names)),
        call_requires(LatticeProtoApi::watch_lattices, (&api, can_reply, names)),
        call_requires(LatticeProtoApi::watch_next, (&api, event)),
        call_requires(LatticeProtoApi::reply, (&api, result)),
        call_requires(LatticeProtoApi::lattice_from_subject, (&api, name)),
        text::split_on(name@, '.').len() >= 4 ==> call_requires(
            LatticeProtoApi::handle_msg,
            (&api, name, headers),
        ),
        headers is None ==> call_requires(LatticeProtoApi::handle_msg, (&api, name, headers)),
{
}

} // verus!
