//! What the lattice service promises to those who use it: what each operation does, effect by
//! effect, and what is read afterwards, in terms of what was asked for.
use crate::config::{Args, Config};
use crate::control;
use crate::control::{
    Context, CreateLatticeResponse, Health, Lattice, LatticePhase, LatticeStatus, LatticeUpdate,
};
use crate::effects;
use crate::effects::{Effect, EffectView, Outcome, World};
use crate::ids;
use crate::lattice_store;
use crate::lattice_wrpc;
use crate::lattice_wrpc::LatticeWrpcApi;
use crate::text;
use vstd::prelude::*;

verus! {

/// The effects of adding a lattice, of which there are at most so many.
pub open spec fn add_trace(
    api: LatticeWrpcApi,
    world: World<control::LatticeView>,
    step: lattice_wrpc::AddStepView,
    effects: nat,
) -> Seq<EffectView<control::LatticeView>>
    decreases effects,
{
    match step {
        lattice_wrpc::AddStepView::Do(state, effect) if effects > 0 => {
            let (after, outcome) = effects::perform(world, effect);
            seq![effect] + add_trace(
                api,
                after,
                lattice_wrpc::add_next(api, state, outcome),
                (effects - 1) as nat,
            )
        },
        _ => Seq::empty(),
    }
}

/// The effects of changing a lattice, of which there are at most so many.
pub open spec fn update_trace(
    world: World<control::LatticeView>,
    step: lattice_wrpc::UpdateStepView,
    fresh: Seq<char>,
    effects: nat,
) -> Seq<EffectView<control::LatticeView>>
    decreases effects,
{
    match step {
        lattice_wrpc::UpdateStepView::Do(state, effect) if effects > 0 => {
            let (after, outcome) = effects::perform(world, effect);
            seq![effect] + update_trace(
                after,
                lattice_wrpc::update_next(state, outcome, fresh),
                fresh,
                (effects - 1) as nat,
            )
        },
        _ => Seq::empty(),
    }
}

/// The effects of deleting a lattice, of which there are at most so many.
pub open spec fn delete_trace(
    world: World<control::LatticeView>,
    step: lattice_wrpc::DeleteStepView,
    effects: nat,
) -> Seq<EffectView<control::LatticeView>>
    decreases effects,
{
    match step {
        lattice_wrpc::DeleteStepView::Do(state, effect) if effects > 0 => {
            let (after, outcome) = effects::perform(world, effect);
            seq![effect] + delete_trace(
                after,
                lattice_wrpc::delete_next(state, outcome),
                (effects - 1) as nat,
            )
        },
        _ => Seq::empty(),
    }
}

/// The effects of reading lattices, of which there are at most so many.
pub open spec fn get_trace(
    world: World<control::LatticeView>,
    step: lattice_wrpc::GetStepView,
    effects: nat,
) -> Seq<EffectView<control::LatticeView>>
    decreases effects,
{
    match step {
        lattice_wrpc::GetStepView::Do(state, effect) if effects > 0 => {
            let (after, outcome) = effects::perform(world, effect);
            seq![effect] + get_trace(
                after,
                lattice_wrpc::get_next(state, outcome),
                (effects - 1) as nat,
            )
        },
        _ => Seq::empty(),
    }
}

/// Adding a lattice makes its two buckets, opens that of the lattices, and writes the lattice that
/// was asked for: with the account, the keys, the description, the flag, the name, the labels and
/// the annotations of the request, a version if the request has none, a new identifier, and in
/// provision. If there is a generator, it is given that very lattice, with the operator's key and
/// the system account; what it makes of it, or the lattice as it is if there is none, is written
/// last, as created. The claims of an account that was made are printed.
pub proof fn adding_writes_what_was_asked(
    api: LatticeWrpcApi,
    world: World<control::LatticeView>,
    lattice: control::LatticeView,
    version: Seq<char>,
    uid: Seq<char>,
)
    requires
        lattice.metadata.name.len() > 0,
    ensures
        ({
            let name = lattice.metadata.name;
            let first = control::LatticeView {
                metadata: control::MetadataView {
                    name,
                    version: if lattice.metadata.version.len() > 0 {
                        lattice.metadata.version
                    } else {
                        version
                    },
                    uid,
                    labels: lattice.metadata.labels,
                    annotations: lattice.metadata.annotations,
                },
                account: lattice.account,
                signing_keys: lattice.signing_keys,
                description: lattice.description,
                deletable: lattice.deletable,
                status: LatticeStatus { phase: LatticePhase::Provisioning },
            };
            let context = control::ContextView {
                lattice: first,
                additional_metadata: None,
                operator_key: api.operator_key.deep_view(),
                system_account: api.system_account.deep_view(),
            };
            let start = seq![
                EffectView::CreateBucket { bucket: "LATTICEDATA_"@ + name, replicas: 1 },
                EffectView::CreateBucket { bucket: "CONFIGDATA_"@ + name, replicas: 1 },
                EffectView::OpenBucket { bucket: "WASMCLOUD_LATTICES"@ },
                EffectView::Put { key: name, lattice: first },
            ];
            let step = lattice_wrpc::add_first(lattice_wrpc::prepared(lattice, version, uid));
            let done = add_trace(api, world, step, 7);
            let (after, result) = lattice_store::run_add(api, world, step, 7);
            let revision = (world.revision + 1) as u64;
            if api.component {
                match (world.generator)(context) {
                    Err(e) => {
                        &&& done == start.push(EffectView::Create { context })
                        &&& result == Some(
                            Ok::<Result<Seq<char>, Seq<char>>, Seq<char>>(
                                Err("Error invoking component: "@ + e),
                            ),
                        )
                        &&& after.lattices == world.lattices.insert(name, Ok(first))
                    },
                    Ok(response) => {
                        let last = control::LatticeView {
                            status: LatticeStatus { phase: LatticePhase::Created },
                            ..response.lattice
                        };
                        let called = start.push(EffectView::Create { context });
                        let told = match response.account {
                            Some(account) => called.push(
                                EffectView::Print { line: account.encoded },
                            ),
                            None => called,
                        };
                        &&& done == told.push(
                            EffectView::Update { key: name, lattice: last, revision },
                        )
                        &&& result == Some(
                            Ok::<Result<Seq<char>, Seq<char>>, Seq<char>>(
                                Ok(first.metadata.version),
                            ),
                        )
                        &&& after.lattices == world.lattices.insert(name, Ok(last))
                    },
                }
            } else {
                let last = control::LatticeView {
                    status: LatticeStatus { phase: LatticePhase::Created },
                    ..first
                };
                &&& done == start.push(EffectView::Update { key: name, lattice: last, revision })
                &&& result == Some(
                    Ok::<Result<Seq<char>, Seq<char>>, Seq<char>>(Ok(first.metadata.version)),
                )
                &&& after.lattices == world.lattices.insert(name, Ok(last))
            }
        }),
{
    reveal_with_fuel(add_trace, 8);
    reveal_with_fuel(lattice_store::run_add, 8);
    let step = lattice_wrpc::add_first(lattice_wrpc::prepared(lattice, version, uid));
    lattice_store::added_lattice_is_stored(api, world, lattice, version, uid);
    let (after, result) = lattice_store::run_add(api, world, step, 7);
}

/// A lattice that is asked for with an account keeps it, and its keys, though there is a generator:
/// one that leaves a lattice with an account as it is, as the generator does, makes no account for
/// it. Nothing is printed then.
pub proof fn account_of_the_request_is_kept(
    api: LatticeWrpcApi,
    world: World<control::LatticeView>,
    lattice: control::LatticeView,
    version: Seq<char>,
    uid: Seq<char>,
)
    requires
        lattice.metadata.name.len() > 0,
        lattice.account is Some,
        forall|context: control::ContextView|
            context.lattice.account is Some ==> #[trigger] (world.generator)(context) == Ok::<
                control::CreateLatticeResponseView,
                Seq<char>,
            >(control::CreateLatticeResponseView { lattice: context.lattice, account: None }),
    ensures
        ({
            let step = lattice_wrpc::add_first(lattice_wrpc::prepared(lattice, version, uid));
            let (after, result) = lattice_store::run_add(api, world, step, 7);
            &&& lattice_store::run_get(
                after,
                lattice_wrpc::get_first(seq![lattice.metadata.name]),
                2,
            ).1 matches Some(Ok(read))
            &&& read.len() == 1
            &&& read[0].account == lattice.account
            &&& read[0].signing_keys == lattice.signing_keys
            &&& read[0].description == lattice.description
            &&& read[0].deletable == lattice.deletable
            &&& read[0].metadata.name == lattice.metadata.name
            &&& read[0].metadata.labels == lattice.metadata.labels
            &&& read[0].metadata.annotations == lattice.metadata.annotations
            &&& read[0].status.phase == LatticePhase::Created
            &&& forall|i: int|
                0 <= i < add_trace(api, world, step, 7).len() ==> !((#[trigger] add_trace(
                    api,
                    world,
                    step,
                    7,
                )[i]) is Print)
        }),
{
    adding_writes_what_was_asked(api, world, lattice, version, uid);
    lattice_store::added_lattice_is_read(api, world, lattice, version, uid);
    let step = lattice_wrpc::add_first(lattice_wrpc::prepared(lattice, version, uid));
    let (after, _) = lattice_store::run_add(api, world, step, 7);
    let done = add_trace(api, world, step, 7);
    assert(after.lattices.contains_key(lattice.metadata.name));
}

/// Changing a lattice reads it under the name that was asked for and writes it, under the name that
/// it has, with a new version. A field that is named has the value of the request; a flag that is
/// named without a value is false. What is not named stays, as do the name, the identifier, the
/// labels, the annotations and the phase. If no field is named, nothing is written and the answer
/// is the version that the lattice has.
pub proof fn changing_writes_what_is_named(
    world: World<control::LatticeView>,
    update: control::LatticeUpdateView,
    paths: Seq<Seq<char>>,
    fresh: Seq<char>,
    found: control::LatticeView,
)
    requires
        paths.len() > 0,
        world.lattices.contains_key(update.lattice),
        world.lattices[update.lattice] == Ok::<control::LatticeView, Seq<char>>(found),
    ensures
        ({
            let step = lattice_wrpc::update_first(update, paths);
            let done = update_trace(world, step, fresh, 3);
            let (after, result) = lattice_store::run_update(world, step, fresh, 3);
            let start = seq![
                EffectView::OpenBucket { bucket: "WASMCLOUD_LATTICES"@ },
                EffectView::Get { key: update.lattice },
            ];
            let name = found.metadata.name;
            if paths.contains("account"@) || paths.contains("description"@) || paths.contains(
                "signing_keys"@,
            ) || paths.contains("deletable"@) {
                &&& result == Some(Ok::<Seq<char>, Seq<char>>(fresh))
                &&& lattice_store::run_get(after, lattice_wrpc::get_first(seq![name]), 2).1 matches
                    Some(Ok(read))
                &&& read.len() == 1
                &&& done == start.push(EffectView::Put { key: name, lattice: read[0] })
                &&& after.lattices == world.lattices.insert(name, Ok(read[0]))
                &&& paths.contains("account"@) ==> read[0].account == update.account
                &&& paths.contains("description"@) ==> read[0].description == update.description
                &&& paths.contains("signing_keys"@) ==> read[0].signing_keys == update.signing_keys
                &&& paths.contains("deletable"@) ==> match update.deletable {
                    Some(v) => read[0].deletable == v,
                    None => !read[0].deletable,
                }
                &&& !paths.contains("account"@) ==> read[0].account == found.account
                &&& !paths.contains("description"@) ==> read[0].description == found.description
                &&& !paths.contains("signing_keys"@) ==> read[0].signing_keys == found.signing_keys
                &&& !paths.contains("deletable"@) ==> read[0].deletable == found.deletable
                &&& read[0].metadata.name == found.metadata.name
                &&& read[0].metadata.version == fresh
                &&& read[0].metadata.uid == found.metadata.uid
                &&& read[0].metadata.labels == found.metadata.labels
                &&& read[0].metadata.annotations == found.metadata.annotations
                &&& read[0].status.phase == found.status.phase
            } else {
                &&& done == start
                &&& after == world
                &&& result == Some(Ok::<Seq<char>, Seq<char>>(found.metadata.version))
            }
        }),
{
    reveal_with_fuel(update_trace, 4);
    reveal_with_fuel(lattice_store::run_update, 4);
    lattice_store::modifies_names_a_field(paths);
    lattice_store::updated_lattice_is_stored(world, update, paths, fresh);
    let step = lattice_wrpc::update_first(update, paths);
    let done = update_trace(world, step, fresh, 3);
    let name = found.metadata.name;
    if lattice_wrpc::modifies(paths) {
        lattice_store::updated_lattice_is_read(world, update, paths, fresh);
        let (after, _) = lattice_store::run_update(world, step, fresh, 3);
        let read = after.lattices[name]->Ok_0;
        assert(done =~= seq![
            EffectView::OpenBucket { bucket: "WASMCLOUD_LATTICES"@ },
            EffectView::Get { key: update.lattice },
            EffectView::Put { key: name, lattice: read },
        ]);
    } else {
        assert(done =~= seq![
            EffectView::OpenBucket { bucket: "WASMCLOUD_LATTICES"@ },
            EffectView::Get { key: update.lattice },
        ]);
    }
}

/// A change without paths is refused, and nothing is done. A lattice that is not there or that
/// cannot be read is not changed: it is looked for under the name that was asked for, and nothing
/// is written.
pub proof fn change_of_nothing_is_refused(
    world: World<control::LatticeView>,
    update: control::LatticeUpdateView,
    paths: Seq<Seq<char>>,
    fresh: Seq<char>,
)
    requires
        !lattice_store::is_readable(world, update.lattice),
    ensures
        ({
            let step = lattice_wrpc::update_first(update, paths);
            let done = update_trace(world, step, fresh, 3);
            let (after, result) = lattice_store::run_update(world, step, fresh, 3);
            &&& after == world
            &&& if paths.len() == 0 {
                &&& done == Seq::<EffectView<control::LatticeView>>::empty()
                &&& result == Some(Err::<Seq<char>, Seq<char>>("No paths provided for update"@))
            } else {
                &&& done == seq![
                    EffectView::<control::LatticeView>::OpenBucket {
                        bucket: "WASMCLOUD_LATTICES"@,
                    },
                    EffectView::Get { key: update.lattice },
                ]
                &&& result == Some(
                    Err::<Seq<char>, Seq<char>>(
                        if world.lattices.contains_key(update.lattice) {
                            world.lattices[update.lattice]->Err_0
                        } else {
                            "Lattice not found"@
                        },
                    ),
                )
            }
        }),
{
    reveal_with_fuel(update_trace, 4);
    reveal_with_fuel(lattice_store::run_update, 4);
}

/// Before a lattice is deleted, it is asked for its own applications, on a subject with its name.
/// If the answer is not an empty list, the deletion is refused and nothing is written, whatever is
/// answered for other lattices. Otherwise the lattice is first written as it is, in deletion, and
/// is then removed, both under the name that it has; the answer is what was written.
pub proof fn deleting_asks_for_applications(
    world: World<control::LatticeView>,
    name: Seq<char>,
    found: control::LatticeView,
)
    requires
        world.lattices.contains_key(name),
        world.lattices[name] == Ok::<control::LatticeView, Seq<char>>(found),
    ensures
        ({
            let step = lattice_wrpc::delete_first(name);
            let done = delete_trace(world, step, 5);
            let (after, result) = lattice_store::run_delete(world, step, 5);
            let subject = "wadm.api."@ + name + ".model.list"@;
            let start = seq![
                EffectView::OpenBucket { bucket: "WASMCLOUD_LATTICES"@ },
                EffectView::Get { key: name },
                EffectView::Request { subject, payload: Seq::<u8>::empty() },
            ];
            if (world.applications)(subject, Seq::empty()) == seq![0x5bu8, 0x5du8] {
                let last = control::LatticeView {
                    metadata: found.metadata,
                    account: found.account,
                    signing_keys: found.signing_keys,
                    description: found.description,
                    deletable: found.deletable,
                    status: LatticeStatus { phase: LatticePhase::Deleting },
                };
                &&& done == start.push(
                    EffectView::Put { key: found.metadata.name, lattice: last },
                ).push(EffectView::Delete { key: found.metadata.name })
                &&& result == Some(Ok::<control::LatticeView, Seq<char>>(last))
                &&& after.lattices == world.lattices.remove(found.metadata.name)
            } else {
                &&& done == start
                &&& result == Some(
                    Err::<control::LatticeView, Seq<char>>(
                        "Lattice has applications. Delete them first before deleting the lattice"@,
                    ),
                )
                &&& after == world
            }
        }),
{
    reveal_with_fuel(delete_trace, 6);
    reveal_with_fuel(lattice_store::run_delete, 6);
    lattice_store::deleted_lattice_is_gone(world, name);
}

/// A lattice that is not there or that cannot be read is not deleted: it is looked for, and no
/// question is asked.
pub proof fn deletion_of_nothing_is_refused(world: World<control::LatticeView>, name: Seq<char>)
    requires
        !lattice_store::is_readable(world, name),
    ensures
        ({
            let step = lattice_wrpc::delete_first(name);
            let (after, result) = lattice_store::run_delete(world, step, 5);
            &&& after == world
            &&& delete_trace(world, step, 5) == seq![
                EffectView::<control::LatticeView>::OpenBucket { bucket: "WASMCLOUD_LATTICES"@ },
                EffectView::Get { key: name },
            ]
            &&& result == Some(
                Err::<control::LatticeView, Seq<char>>(
                    if world.lattices.contains_key(name) {
                        world.lattices[name]->Err_0
                    } else {
                        "Lattice not found"@
                    },
                ),
            )
        }),
{
    reveal_with_fuel(delete_trace, 6);
    reveal_with_fuel(lattice_store::run_delete, 6);
}

/// Whether a lattice can be deleted depends on the answer for its own applications alone.
pub proof fn only_own_applications_count(
    a: World<control::LatticeView>,
    b: World<control::LatticeView>,
    name: Seq<char>,
)
    requires
        a.lattices == b.lattices,
        (a.applications)("wadm.api."@ + name + ".model.list"@, Seq::empty()) == (b.applications)(
            "wadm.api."@ + name + ".model.list"@,
            Seq::empty(),
        ),
    ensures
        ({
            let step = lattice_wrpc::delete_first(name);
            let (after_a, result_a) = lattice_store::run_delete(a, step, 5);
            let (after_b, result_b) = lattice_store::run_delete(b, step, 5);
            &&& result_a == result_b
            &&& after_a.lattices == after_b.lattices
            &&& delete_trace(a, step, 5) == delete_trace(b, step, 5)
        }),
{
    if lattice_store::is_readable(a, name) {
        deleting_asks_for_applications(a, name, a.lattices[name]->Ok_0);
        deleting_asks_for_applications(b, name, a.lattices[name]->Ok_0);
    } else {
        deletion_of_nothing_is_refused(a, name);
        deletion_of_nothing_is_refused(b, name);
    }
}

/// Reading goes on from where it is, one read for each name.
proof fn reads_go_on(
    world: World<control::LatticeView>,
    state: lattice_wrpc::GetLatticesView,
    effects: nat,
)
    requires
        state.open,
        state.lattices.len() <= state.names.len(),
        forall|i: int|
            0 <= i < state.names.len() ==> lattice_store::is_readable(
                world,
                #[trigger] state.names[i],
            ),
        effects == state.names.len() - state.lattices.len(),
    ensures
        get_trace(world, lattice_wrpc::get_more(state), effects) == Seq::new(
            effects,
            |i: int|
                EffectView::<control::LatticeView>::Get {
                    key: state.names[state.lattices.len() + i],
                },
        ),
    decreases effects,
{
    let at = state.lattices.len() as int;
    let whole = Seq::new(
        effects,
        |i: int| EffectView::<control::LatticeView>::Get { key: state.names[at + i] },
    );
    if at < state.names.len() {
        let next = lattice_wrpc::GetLatticesView {
            lattices: state.lattices.push(world.lattices[state.names[at]]->Ok_0),
            ..state
        };
        assert(lattice_store::is_readable(world, state.names[at]));
        reads_go_on(world, next, (effects - 1) as nat);
        assert(lattice_wrpc::GetLatticesView { open: true, ..state } == state);
        assert(get_trace(world, lattice_wrpc::get_more(state), effects) =~= whole);
    } else {
        assert(get_trace(world, lattice_wrpc::get_more(state), effects) =~= whole);
    }
}

/// Reading lattices that can be read opens their bucket, reads each by its name and in turn, and
/// gives for each name what is stored under that name.
pub proof fn reading_gives_each_by_name(world: World<control::LatticeView>, names: Seq<Seq<char>>)
    requires
        forall|i: int|
            0 <= i < names.len() ==> lattice_store::is_readable(world, #[trigger] names[i]),
    ensures
        ({
            let step = lattice_wrpc::get_first(names);
            &&& lattice_store::run_get(world, step, names.len() + 1).0 == world
            &&& lattice_store::run_get(world, step, names.len() + 1).1 matches Some(Ok(read))
            &&& read.len() == names.len()
            &&& forall|i: int|
                0 <= i < names.len() ==> world.lattices[#[trigger] names[i]] == Ok::<
                    control::LatticeView,
                    Seq<char>,
                >(read[i])
            &&& get_trace(world, step, names.len() + 1) == seq![
                EffectView::<control::LatticeView>::OpenBucket { bucket: "WASMCLOUD_LATTICES"@ },
            ] + Seq::new(names.len(), |i: int| EffectView::Get { key: names[i] })
        }),
{
    lattice_store::stored_lattices_are_read(world, names, names.len() as int);
    assert forall|i: int| 0 <= i < names.len() implies world.lattices[#[trigger] names[i]] == Ok::<
        control::LatticeView,
        Seq<char>,
    >(lattice_store::lattices_of(world, names)[i]) by {
        assert(lattice_store::is_readable(world, names[i]));
    }
    let closed = lattice_wrpc::GetLatticesView { open: false, names, lattices: Seq::empty() };
    let open = lattice_wrpc::GetLatticesView { open: true, ..closed };
    reads_go_on(world, open, names.len());
    assert(lattice_wrpc::get_more(closed) == lattice_wrpc::get_more(open)) by {
        assert(lattice_wrpc::GetLatticesView { open: true, ..open } == open);
    }
    reveal_with_fuel(get_trace, 2);
    assert(Seq::new(
        names.len(),
        |i: int| EffectView::<control::LatticeView>::Get { key: names[0 + i] },
    ) =~= Seq::new(names.len(), |i: int| EffectView::<control::LatticeView>::Get { key: names[i] }));
}

/// A lattice that is made ready to be written has all that the request has, but for the identifier,
/// the phase, and a version if it has none.
pub proof fn preparing_keeps_the_request(
    lattice: Lattice,
    version: String,
    uid: String,
    r: Lattice,
)
    requires
        call_ensures(lattice_wrpc::prepare, (lattice, version, uid), r),
    ensures
        r.account.deep_view() == lattice.account.deep_view(),
        r.signing_keys.deep_view() == lattice.signing_keys.deep_view(),
        r.description.deep_view() == lattice.description.deep_view(),
        r.deletable == lattice.deletable,
        r.metadata.name@ == lattice.metadata.name@,
        r.metadata.labels.deep_view() == lattice.metadata.labels.deep_view(),
        r.metadata.annotations.deep_view() == lattice.metadata.annotations.deep_view(),
        r.metadata.uid@ == uid@,
        r.metadata.version@ == if lattice.metadata.version@.len() > 0 {
            lattice.metadata.version@
        } else {
            version@
        },
        r.status.phase == LatticePhase::Provisioning,
{
    assert(r@.metadata == r.metadata@ && lattice@.metadata == lattice.metadata@);
}

/// The generator is given the lattice as it is, with each of its fields, and the keys of the
/// service.
pub proof fn generator_is_given_the_lattice(api: LatticeWrpcApi, lattice: Lattice, r: Context)
    requires
        call_ensures(LatticeWrpcApi::generator_context, (&api, lattice), r),
    ensures
        r.lattice.account.deep_view() == lattice.account.deep_view(),
        r.lattice.signing_keys.deep_view() == lattice.signing_keys.deep_view(),
        r.lattice.description.deep_view() == lattice.description.deep_view(),
        r.lattice.deletable == lattice.deletable,
        r.lattice.status.phase == lattice.status.phase,
        r.lattice.metadata.name@ == lattice.metadata.name@,
        r.lattice.metadata.version@ == lattice.metadata.version@,
        r.lattice.metadata.uid@ == lattice.metadata.uid@,
        r.lattice.metadata.labels.deep_view() == lattice.metadata.labels.deep_view(),
        r.lattice.metadata.annotations.deep_view() == lattice.metadata.annotations.deep_view(),
        r.additional_metadata is None,
        r.operator_key.deep_view() == api.operator_key.deep_view(),
        r.system_account.deep_view() == api.system_account.deep_view(),
{
    assert(r@.lattice == r.lattice@);
    assert(r.lattice@.metadata == r.lattice.metadata@ && lattice@.metadata == lattice.metadata@);
    assert(r@.additional_metadata == r.additional_metadata.deep_view());
}

/// Changing a lattice sets each field that is named to the value of the request, and no other. The
/// result is whether a field is named.
pub proof fn change_sets_what_is_named(
    lattice: &mut Lattice,
    update: LatticeUpdate,
    paths: Vec<String>,
    r: bool,
)
    requires
        call_ensures(lattice_wrpc::apply_update, (lattice, &update, &paths), r),
    ensures
        ({
            let named = paths.deep_view();
            &&& final(lattice).account.deep_view() == if named.contains("account"@) {
                update.account.deep_view()
            } else {
                old(lattice).account.deep_view()
            }
            &&& final(lattice).description.deep_view() == if named.contains("description"@) {
                update.description.deep_view()
            } else {
                old(lattice).description.deep_view()
            }
            &&& final(lattice).signing_keys.deep_view() == if named.contains("signing_keys"@) {
                update.signing_keys.deep_view()
            } else {
                old(lattice).signing_keys.deep_view()
            }
            &&& named.contains("deletable"@) ==> match update.deletable {
                Some(v) => final(lattice).deletable == v,
                None => !final(lattice).deletable,
            }
            &&& !named.contains("deletable"@) ==> final(lattice).deletable == old(
                lattice,
            ).deletable
            &&& final(lattice).metadata@ == old(lattice).metadata@
            &&& final(lattice).status == old(lattice).status
            &&& r <==> named.contains("account"@) || named.contains("description"@)
                || named.contains("signing_keys"@) || named.contains("deletable"@)
        }),
{
    lattice_store::modifies_names_a_field(paths.deep_view());
}

/// A request to add a lattice without a name is refused. Otherwise the first thing that is done is
/// to create the bucket of its data; what is being added has all that the request has, a version
/// and an identifier.
pub proof fn adding_starts_with_the_request(
    api: LatticeWrpcApi,
    lattice: Lattice,
    r: lattice_wrpc::AddStep,
)
    requires
        call_ensures(LatticeWrpcApi::add_lattice, (&api, lattice), r),
    ensures
        if lattice.metadata.name@.len() == 0 {
            r matches lattice_wrpc::AddStep::Finish(Err(e)) && e@ == "Lattice name is required"@
        } else {
            &&& r matches lattice_wrpc::AddStep::Do(
                state,
                Effect::CreateBucket { bucket, replicas },
            )
            &&& bucket@ == "LATTICEDATA_"@ + lattice.metadata.name@
            &&& replicas == 1
            &&& state.stage == lattice_wrpc::AddStage::DataBucket
            &&& state.name@ == lattice.metadata.name@
            &&& state.version@ == state.lattice.metadata.version@
            &&& state.lattice.metadata.name@ == lattice.metadata.name@
            &&& if lattice.metadata.version@.len() > 0 {
                state.lattice.metadata.version@ == lattice.metadata.version@
            } else {
                ids::is_ulid(state.lattice.metadata.version@)
            }
            &&& ids::is_uuid(state.lattice.metadata.uid@)
            &&& state.lattice.metadata.labels.deep_view() == lattice.metadata.labels.deep_view()
            &&& state.lattice.metadata.annotations.deep_view()
                == lattice.metadata.annotations.deep_view()
            &&& state.lattice.account.deep_view() == lattice.account.deep_view()
            &&& state.lattice.signing_keys.deep_view() == lattice.signing_keys.deep_view()
            &&& state.lattice.description.deep_view() == lattice.description.deep_view()
            &&& state.lattice.deletable == lattice.deletable
            &&& state.lattice.status.phase == LatticePhase::Provisioning
        },
{
    assert(lattice@.metadata == lattice.metadata@);
    if let lattice_wrpc::AddStep::Do(state, effect) = r {
        assert(r@ == lattice_wrpc::AddStepView::Do(state@, effect@));
        assert(state@.lattice == state.lattice@);
        assert(state.lattice@.metadata == state.lattice.metadata@);
    }
}

/// The steps of the operations are those by which the laws on whole operations run them.
pub proof fn steps_are_those_of_the_runs(
    api: LatticeWrpcApi,
    lattice: Lattice,
    started: lattice_wrpc::AddStep,
    adding: lattice_wrpc::AddLattice,
    added: lattice_wrpc::AddStep,
    changing: lattice_wrpc::UpdateLattice,
    version: String,
    changed: lattice_wrpc::UpdateStep,
    redrawn: lattice_wrpc::UpdateStep,
    deleting: lattice_wrpc::DeleteLattice,
    deleted: lattice_wrpc::DeleteStep,
    reading: lattice_wrpc::GetLattices,
    read: lattice_wrpc::GetStep,
    outcome: Outcome<Lattice>,
)
    ensures
        call_ensures(LatticeWrpcApi::add_lattice, (&api, lattice), started)
            && lattice.metadata.name@.len() > 0 ==> exists|version: Seq<char>, uid: Seq<char>|
            ids::is_ulid(version) && ids::is_uuid(uid) && started@ == lattice_wrpc::add_first(
                #[trigger] lattice_wrpc::prepared(lattice@, version, uid),
            ),
        call_ensures(LatticeWrpcApi::add_lattice_next, (&api, adding, outcome), added) ==> added@
            == lattice_wrpc::add_next(api, adding@, outcome@),
        call_ensures(
            LatticeWrpcApi::update_lattice_with,
            (&api, changing, outcome, version),
            changed,
        ) ==> changed@ == lattice_wrpc::update_next(changing@, outcome@, version@),
        call_ensures(LatticeWrpcApi::update_lattice_next, (&api, changing, outcome), redrawn)
            ==> exists|fresh: Seq<char>|
            ids::is_ulid(fresh) && redrawn@ == #[trigger] lattice_wrpc::update_next(
                changing@,
                outcome@,
                fresh,
            ),
        call_ensures(LatticeWrpcApi::delete_lattice_next, (&api, deleting, outcome), deleted)
            ==> deleted@ == lattice_wrpc::delete_next(deleting@, outcome@),
        call_ensures(LatticeWrpcApi::get_lattices_next, (&api, reading, outcome), read) ==> read@
            == lattice_wrpc::get_next(reading@, outcome@),
{
}

/// Changing, deleting and reading lattices start by opening their bucket, and keep in mind what was
/// asked for.
pub proof fn operations_start_with_the_bucket(
    api: LatticeWrpcApi,
    update: LatticeUpdate,
    paths: Vec<String>,
    changed: lattice_wrpc::UpdateStep,
    name: String,
    deleted: lattice_wrpc::DeleteStep,
    names: Vec<String>,
    read: lattice_wrpc::GetStep,
)
    requires
        call_ensures(LatticeWrpcApi::update_lattice, (&api, update, paths), changed),
        call_ensures(LatticeWrpcApi::delete_lattice, (&api, name), deleted),
        call_ensures(LatticeWrpcApi::get_lattices, (&api, names), read),
    ensures
        if paths@.len() == 0 {
            changed matches lattice_wrpc::UpdateStep::Finish(Err(e)) && e@
                == "No paths provided for update"@
        } else {
            &&& changed matches lattice_wrpc::UpdateStep::Do(state, Effect::OpenBucket { bucket })
            &&& bucket@ == "WASMCLOUD_LATTICES"@
            &&& state.stage == lattice_wrpc::UpdateStage::Opening
            &&& state.paths.deep_view() == paths.deep_view()
            &&& state.update.lattice@ == update.lattice@
            &&& state.update.account.deep_view() == update.account.deep_view()
            &&& state.update.description.deep_view() == update.description.deep_view()
            &&& state.update.signing_keys.deep_view() == update.signing_keys.deep_view()
            &&& state.update.deletable == update.deletable
        },
        deleted matches lattice_wrpc::DeleteStep::Do(state, Effect::OpenBucket { bucket })
            && bucket@ == "WASMCLOUD_LATTICES"@ && state.stage == lattice_wrpc::DeleteStage::Opening
            && state.name@ == name@,
        read matches lattice_wrpc::GetStep::Do(state, Effect::OpenBucket { bucket }) && bucket@
            == "WASMCLOUD_LATTICES"@ && !state.open && state.names.deep_view() == names.deep_view()
            && state.lattices@.len() == 0,
{
    assert(paths.deep_view().len() == paths@.len());
    if let lattice_wrpc::UpdateStep::Do(state, effect) = changed {
        assert(changed@ == lattice_wrpc::UpdateStepView::Do(state@, effect@));
        assert(state@.update == state.update@);
    }
    if let lattice_wrpc::DeleteStep::Do(state, effect) = deleted {
        assert(deleted@ == lattice_wrpc::DeleteStepView::Do(state@, effect@));
    }
    if let lattice_wrpc::GetStep::Do(state, effect) = read {
        assert(read@ == lattice_wrpc::GetStepView::Do(state@, effect@));
        assert(state@.lattices.len() == state.lattices@.len());
    }
}

/// An effect that fails ends adding a lattice with that failure. A generator that fails is an
/// answer.
pub proof fn failure_ends_adding(
    api: LatticeWrpcApi,
    state: lattice_wrpc::AddLattice,
    e: String,
    failed: lattice_wrpc::AddStep,
    refused: lattice_wrpc::AddStep,
)
    requires
        call_ensures(LatticeWrpcApi::add_lattice_next, (&api, state, Outcome::Failed(e)), failed),
        call_ensures(
            LatticeWrpcApi::add_lattice_next,
            (&api, state, Outcome::Created(Err(e))),
            refused,
        ),
        state.stage == lattice_wrpc::AddStage::Creating,
    ensures
        failed matches lattice_wrpc::AddStep::Finish(Err(text)) && text@ == e@,
        refused matches lattice_wrpc::AddStep::Finish(Ok(Err(text))) && text@
            == "Error invoking component: "@ + e@,
{
    assert(failed@ == lattice_wrpc::AddStepView::Finish(Err(e@)));
    assert(refused@ == lattice_wrpc::AddStepView::Finish(
        Ok(Err("Error invoking component: "@ + e@)),
    ));
}

/// An effect that fails ends an operation with that failure, but that a lattice which could not be
/// read is reported as such.
pub proof fn failure_ends_operations(
    api: LatticeWrpcApi,
    adding: lattice_wrpc::AddLatticeView,
    changing: lattice_wrpc::UpdateLatticeView,
    fresh: Seq<char>,
    deleting: lattice_wrpc::DeleteLatticeView,
    reading: lattice_wrpc::GetLatticesView,
    e: Seq<char>,
)
    ensures
        lattice_wrpc::add_next(api, adding, effects::OutcomeView::Failed(e))
            == lattice_wrpc::AddStepView::Finish(Err(e)),
        lattice_wrpc::update_next(changing, effects::OutcomeView::Failed(e), fresh)
            == lattice_wrpc::UpdateStepView::Finish(
            Err(
                if changing.stage == lattice_wrpc::UpdateStage::Reading {
                    "Failed to get lattice"@
                } else {
                    e
                },
            ),
        ),
        lattice_wrpc::delete_next(deleting, effects::OutcomeView::Failed(e))
            == lattice_wrpc::DeleteStepView::Finish(
            Err(
                if deleting.stage == lattice_wrpc::DeleteStage::Reading {
                    "Failed to get lattice"@
                } else {
                    e
                },
            ),
        ),
        lattice_wrpc::get_next(reading, effects::OutcomeView::Failed(e))
            == lattice_wrpc::GetStepView::Finish(
            Err(
                if reading.open {
                    "Failed to get lattice "@ + reading.names[reading.lattices.len() as int]
                        + ", "@ + e
                } else {
                    e
                },
            ),
        ),
{
}

/// The service has a generator exactly if one is configured, with the keys of that configuration,
/// each in its place.
pub proof fn service_has_the_configured_keys(config: Config, args: Args, r: LatticeWrpcApi)
    requires
        call_ensures(LatticeWrpcApi::new, (&config, &args), r),
    ensures
        r.nats_url@ == args.nats_url@,
        r.component <==> config.lattices is Some,
        config.lattices matches Some(l) ==> r.operator_key.deep_view() == Some(
            l.operator_public_key@,
        ) && r.system_account.deep_view() == Some(l.wasmcloud_system_account@),
        config.lattices is None ==> r.operator_key is None && r.system_account is None,
{
}

/// Listing lattices gives the keys of the bucket, each once and in turn, unless one of them could
/// not be read: then the first failure is the answer.
pub proof fn listing_gives_all_keys(
    api: LatticeWrpcApi,
    keys: Vec<Result<String, String>>,
    r: Result<Vec<String>, String>,
    first: int,
)
    requires
        call_ensures(LatticeWrpcApi::list_lattices, (&api, keys), r),
        0 <= first <= keys@.len(),
        forall|i: int| 0 <= i < first ==> (#[trigger] keys@[i]) is Ok,
        first < keys@.len() ==> keys@[first] is Err,
    ensures
        if first == keys@.len() {
            &&& r matches Ok(names)
            &&& names@.len() == keys@.len()
            &&& forall|i: int|
                0 <= i < keys@.len() ==> (#[trigger] names@[i])@ == keys@[i]->Ok_0@
        } else {
            r matches Err(text) && text@ == "Error getting key: "@ + keys@[first]->Err_0@
        },
{
    if first < keys@.len() {
        assert(keys@[first] is Err);
        if let Err(text) = r {
            let i = choose|i: int|
                {
                    &&& 0 <= i < keys@.len()
                    &&& (#[trigger] keys@[i] matches Err(e) && text@ == "Error getting key: "@
                        + e@)
                    &&& forall|j: int| 0 <= j < i ==> (#[trigger] keys@[j]) is Ok
                };
            assert(i == first);
        }
    }
}

/// Watching without lattices in particular watches every key; otherwise those of the given ones.
/// An entry that is a lattice is passed on as that one lattice, any other is passed over.
pub proof fn watching_follows_the_request(
    api: LatticeWrpcApi,
    asked: Option<Vec<String>>,
    keys: Vec<String>,
    entry: Result<Lattice, String>,
    sent: Option<Vec<Lattice>>,
)
    requires
        call_ensures(LatticeWrpcApi::watch_lattices, (&api, asked), keys),
        call_ensures(LatticeWrpcApi::watched, (&api, entry), sent),
    ensures
        asked is None ==> keys.deep_view() == seq![">"@],
        asked matches Some(names) ==> keys.deep_view() == names.deep_view(),
        entry is Err ==> sent is None,
        entry matches Ok(lattice) ==> (sent matches Some(v) && v@.len() == 1 && v@[0] == lattice),
{
}

/// A subject of four tokens or more is about the lattice that its fourth token names; one of fewer
/// is about none. The service is ready, and what the generator says is passed on.
pub proof fn subjects_name_lattices(
    api: LatticeWrpcApi,
    a: Seq<char>,
    b: Seq<char>,
    c: Seq<char>,
    name: Seq<char>,
    subject: &str,
    r: Result<String, String>,
    health: Health,
)
    requires
        call_ensures(LatticeWrpcApi::lattice_from_subject, (&api, subject), r),
        call_ensures(LatticeWrpcApi::health_check, (&api,), health),
        !a.contains('.'),
        !b.contains('.'),
        !c.contains('.'),
        !name.contains('.'),
    ensures
        subject@ == a.push('.') + b.push('.') + c.push('.') + name ==> (r matches Ok(n) && n@
            == name),
        subject@ == a.push('.') + b.push('.') + c ==> (r matches Err(e) && e@
            == "Invalid subject"@),
        health.ready,
        health.message matches Some(m) && m@ == "OK"@,
{
    let four = seq![a, b, c, name];
    let three = seq![a, b, c];
    text::split_of_join_is_the_tokens(four, '.');
    text::split_of_join_is_the_tokens(three, '.');
    reveal_with_fuel(text::join, 5);
    assert(four.drop_last() =~= three);
    assert(three.drop_last() =~= seq![a, b]);
    assert(seq![a, b].drop_last() =~= seq![a]);
    assert(text::join(four, '.') =~= a.push('.') + b.push('.') + c.push('.') + name);
    assert(text::join(three, '.') =~= a.push('.') + b.push('.') + c);
}

/// A lattice that the generator has completed is passed on as it is; its failure, and that of the
/// call, are failures. An answer is an empty list exactly if it is these two bytes.
pub proof fn generator_is_believed(
    result: Result<Result<CreateLatticeResponse, String>, String>,
    r: Result<CreateLatticeResponse, String>,
    payload: Vec<u8>,
    empty: bool,
)
    requires
        call_ensures(lattice_wrpc::created, (result,), r),
        call_ensures(lattice_wrpc::is_empty_list, (&payload,), empty),
    ensures
        result matches Ok(Ok(response)) ==> (r matches Ok(l) && l == response),
        result matches Ok(Err(e)) ==> (r matches Err(t) && t@ == "Failed to create lattice: "@
            + e@),
        result matches Err(e) ==> (r matches Err(t) && t@ == e@),
        empty <==> payload@.len() == 2 && payload@[0] == 0x5b && payload@[1] == 0x5d,
{
    if payload@.len() == 2 && payload@[0] == 0x5b && payload@[1] == 0x5d {
        assert(payload@ =~= seq![0x5bu8, 0x5du8]);
    }
}

/// Whatever is asked for, the service starts on it.
pub proof fn every_request_is_taken(
    api: LatticeWrpcApi,
    config: Config,
    args: Args,
    lattice: Lattice,
    version: String,
    uid: String,
    update: LatticeUpdate,
    paths: Vec<String>,
    name: String,
    names: Vec<String>,
    keys: Vec<Result<String, String>>,
    asked: Option<Vec<String>>,
    entry: Result<Lattice, String>,
    subject: &str,
)
    ensures
        call_requires(LatticeWrpcApi::new, (&config, &args)),
        call_requires(lattice_wrpc::prepare, (lattice, version, uid)),
        call_requires(LatticeWrpcApi::generator_context, (&api, lattice)),
        call_requires(LatticeWrpcApi::add_lattice, (&api, lattice)),
        call_requires(LatticeWrpcApi::update_lattice, (&api, update, paths)),
        call_requires(LatticeWrpcApi::delete_lattice, (&api, name)),
        call_requires(LatticeWrpcApi::get_lattices, (&api, names)),
        call_requires(LatticeWrpcApi::list_lattices, (&api, keys)),
        call_requires(LatticeWrpcApi::watch_lattices, (&api, asked)),
        call_requires(LatticeWrpcApi::watched, (&api, entry)),
        call_requires(LatticeWrpcApi::lattice_from_subject, (&api, subject)),
{
}

/// Whatever an effect comes to that an operation has asked for, the operation goes on with it.
pub proof fn every_outcome_is_taken(
    api: LatticeWrpcApi,
    adding: lattice_wrpc::AddLattice,
    changing: lattice_wrpc::UpdateLattice,
    deleting: lattice_wrpc::DeleteLattice,
    reading: lattice_wrpc::GetLattices,
    version: String,
    outcome: Outcome<Lattice>,
)
    ensures
        match adding.stage {
            lattice_wrpc::AddStage::Writing => outcome is Written || outcome is Failed,
            lattice_wrpc::AddStage::Creating => outcome is Created,
            lattice_wrpc::AddStage::Printing => outcome is Done,
            _ => outcome is Done || outcome is Failed,
        } ==> call_requires(LatticeWrpcApi::add_lattice_next, (&api, adding, outcome)),
        match changing.stage {
            lattice_wrpc::UpdateStage::Opening => outcome is Done || outcome is Failed,
            lattice_wrpc::UpdateStage::Reading => outcome is Found || outcome is Unreadable
                || outcome is Failed,
            lattice_wrpc::UpdateStage::Writing => outcome is Written || outcome is Failed,
        } ==> call_requires(LatticeWrpcApi::update_lattice_next, (&api, changing, outcome))
            && call_requires(
            LatticeWrpcApi::update_lattice_with,
            (&api, changing, outcome, version),
        ),
        match deleting.stage {
            lattice_wrpc::DeleteStage::Opening => outcome is Done || outcome is Failed,
            lattice_wrpc::DeleteStage::Reading => outcome is Found || outcome is Unreadable
                || outcome is Failed,
            lattice_wrpc::DeleteStage::Asking => deleting.lattice is Some && (outcome is Reply
                || outcome is Failed),
            lattice_wrpc::DeleteStage::Writing => deleting.lattice is Some && (outcome is Written
                || outcome is Failed),
            lattice_wrpc::DeleteStage::Deleting => deleting.lattice is Some && (outcome is Done
                || outcome is Failed),
        } ==> call_requires(LatticeWrpcApi::delete_lattice_next, (&api, deleting, outcome)),
        reading.open && reading.lattices@.len() < reading.names@.len() && (outcome is Found
            || outcome is Unreadable || outcome is Failed) ==> call_requires(
            LatticeWrpcApi::get_lattices_next,
            (&api, reading, outcome),
        ),
        !reading.open && reading.lattices@.len() == 0 && (outcome is Done || outcome is Failed)
            ==> call_requires(LatticeWrpcApi::get_lattices_next, (&api, reading, outcome)),
{
    assert(reading@.lattices.len() == reading.lattices@.len());
    assert(reading@.names.len() == reading.names@.len());
    assert(deleting@.lattice is Some <==> deleting.lattice is Some);
}

} // verus!
