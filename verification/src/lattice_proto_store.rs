//! What the operations of the lattice service on plain messages do to a store: what one operation
//! writes, the next one reads.
//!
//! The store is one of lattices. That a message decodes to the lattice that was encoded is left to
//! the codec of the messages.
use crate::bindings;
use crate::control;
use crate::effects;
use crate::effects::World;
use crate::lattice_proto;
use crate::lattice_proto::LatticeProtoApi;
use crate::lattice_wrpc;
use crate::proto;
use vstd::prelude::*;

verus! {

/// Adds a lattice, in at most so many effects, with `fresh` for a new version and `context` for
/// what the lattice generator is given.
pub open spec fn run_add(
    api: LatticeProtoApi,
    world: World<proto::LatticeView>,
    step: lattice_proto::AddStepView,
    fresh: Seq<char>,
    context: control::ContextView,
    effects: nat,
) -> (World<proto::LatticeView>, Option<Result<Seq<char>, Seq<char>>>)
    decreases effects,
{
    match step {
        lattice_proto::AddStepView::Finish(result) => (world, Some(result)),
        lattice_proto::AddStepView::Do(state, effect) => if effects == 0 {
            (world, None)
        } else {
            let (after, outcome) = effects::perform(world, effect);
            run_add(
                api,
                after,
                lattice_proto::add_next(api, state, outcome, fresh, context),
                fresh,
                context,
                (effects - 1) as nat,
            )
        },
    }
}

/// Changes a lattice, in at most so many effects and with `fresh` for a new version.
pub open spec fn run_update(
    world: World<proto::LatticeView>,
    step: lattice_proto::UpdateStepView,
    fresh: Seq<char>,
    effects: nat,
) -> (World<proto::LatticeView>, Option<Result<Seq<char>, Seq<char>>>)
    decreases effects,
{
    match step {
        lattice_proto::UpdateStepView::Finish(result) => (world, Some(result)),
        lattice_proto::UpdateStepView::Do(state, effect) => if effects == 0 {
            (world, None)
        } else {
            let (after, outcome) = effects::perform(world, effect);
            run_update(
                after,
                lattice_proto::update_next(state, outcome, fresh),
                fresh,
                (effects - 1) as nat,
            )
        },
    }
}

/// Deletes a lattice, in at most so many effects and with `fresh` for a new version.
pub open spec fn run_delete(
    world: World<proto::LatticeView>,
    step: lattice_proto::DeleteStepView,
    fresh: Seq<char>,
    effects: nat,
) -> (World<proto::LatticeView>, Option<Result<proto::LatticeView, Seq<char>>>)
    decreases effects,
{
    match step {
        lattice_proto::DeleteStepView::Finish(result) => (world, Some(result)),
        lattice_proto::DeleteStepView::Do(state, effect) => if effects == 0 {
            (world, None)
        } else {
            let (after, outcome) = effects::perform(world, effect);
            run_delete(
                after,
                lattice_proto::delete_next(state, outcome, fresh),
                fresh,
                (effects - 1) as nat,
            )
        },
    }
}

/// Reads lattices, in at most so many effects.
pub open spec fn run_get(
    world: World<proto::LatticeView>,
    step: lattice_proto::GetStepView,
    effects: nat,
) -> (World<proto::LatticeView>, Option<Result<Seq<proto::LatticeView>, Seq<char>>>)
    decreases effects,
{
    match step {
        lattice_proto::GetStepView::Finish(result) => (world, Some(result)),
        lattice_proto::GetStepView::Do(state, effect) => if effects == 0 {
            (world, None)
        } else {
            let (after, outcome) = effects::perform(world, effect);
            run_get(after, lattice_proto::get_next(state, outcome), (effects - 1) as nat)
        },
    }
}

/// The lattice that is stored once the lattice `new` has been added: created, as it was prepared or
/// as the generator has completed it, with a version of its own; if the generator fails, it stays
/// in provision.
pub open spec fn added(
    api: LatticeProtoApi,
    world: World<proto::LatticeView>,
    new: proto::LatticeView,
    fresh: Seq<char>,
    context: control::ContextView,
) -> proto::LatticeView {
    if !api.component {
        created(new, fresh)
    } else {
        match (world.generator)(context) {
            Ok(response) => created(bindings::proto_of(response.lattice), fresh),
            Err(_) => new,
        }
    }
}

/// A lattice as created, with the version `fresh`.
pub open spec fn created(lattice: proto::LatticeView, fresh: Seq<char>) -> proto::LatticeView {
    lattice_proto::with_version(
        lattice_proto::in_phase(lattice, proto::LatticePhase::LatticeCreated),
        fresh,
    )
}

/// The answer to a request to add a lattice: the version that it was first written with, or the
/// failure of the generator.
pub open spec fn add_answer(
    api: LatticeProtoApi,
    world: World<proto::LatticeView>,
    version: Seq<char>,
    context: control::ContextView,
) -> Result<Seq<char>, Seq<char>> {
    match (api.component, (world.generator)(context)) {
        (true, Err(e)) => Err("Error invoking component: "@ + e),
        _ => Ok(version),
    }
}

/// Adding a lattice creates its two buckets and stores it under its name; the answer is the
/// version that it was first written with. If the generator fails, the lattice stays in provision
/// and the answer is the failure. Nothing else changes.
pub proof fn added_lattice_is_stored(
    api: LatticeProtoApi,
    world: World<proto::LatticeView>,
    lattice: proto::LatticeView,
    name: Seq<char>,
    version: Seq<char>,
    uid: Seq<char>,
    fresh: Seq<char>,
    context: control::ContextView,
)
    ensures
        ({
            let new = lattice_proto::prepared(lattice, name, version, uid);
            let (after, result) = run_add(
                api,
                world,
                lattice_proto::add_first(name, version, new),
                fresh,
                context,
                7,
            );
            &&& result == Some(add_answer(api, world, version, context))
            &&& after.buckets == world.buckets.insert("LATTICEDATA_"@ + name, 1).insert(
                "CONFIGDATA_"@ + name,
                1,
            )
            &&& after.lattices == world.lattices.insert(
                name,
                Ok(added(api, world, new, fresh, context)),
            )
            &&& effects::differ_at(World { buckets: after.buckets, ..world }, after, name)
        }),
{
    reveal_with_fuel(run_add, 8);
    let new = lattice_proto::prepared(lattice, name, version, uid);
    let (after, _) = run_add(
        api,
        world,
        lattice_proto::add_first(name, version, new),
        fresh,
        context,
        7,
    );
    assert(after.lattices =~= world.lattices.insert(
        name,
        Ok(added(api, world, new, fresh, context)),
    ));
    assert(world.lattices.remove(name) =~= after.lattices.remove(name));
}

/// Adding a lattice does not overwrite what someone else has written under its name while it was
/// being completed: the last write is refused, and so is the request.
pub proof fn concurrent_write_is_kept(
    api: LatticeProtoApi,
    world: World<proto::LatticeView>,
    state: lattice_proto::AddLatticeView,
    fresh: Seq<char>,
    context: control::ContextView,
    effects: nat,
)
    requires
        effects::latest(world, state.name) != state.revision,
        effects > 1,
    ensures
        run_add(api, world, lattice_proto::add_reopen(state), fresh, context, effects) == (
            world,
            Some(Err::<Seq<char>, Seq<char>>(world.stale)),
        ),
{
    reveal_with_fuel(run_add, 3);
}

/// A new lattice has its name, its version and its identifier, is in provision and is complete.
pub proof fn prepared_lattice_is_complete(
    lattice: proto::LatticeView,
    name: Seq<char>,
    version: Seq<char>,
    uid: Seq<char>,
)
    ensures
        ({
            let new = lattice_proto::prepared(lattice, name, version, uid);
            &&& lattice_proto::is_complete(new)
            &&& new.meta->Some_0.name == name
            &&& new.meta->Some_0.version == version
            &&& new.meta->Some_0.uid == uid
            &&& bindings::phase_of(new) == proto::LatticePhase::LatticeProvisioning.number()
            &&& lattice.spec is None ==> new.spec->Some_0.deletable
        }),
{
}

/// Changing a lattice that is there stores it with the fields that are named changed, with a new
/// version, which is the answer. A lattice that is not there or cannot be read is not changed.
pub proof fn updated_lattice_is_stored(
    world: World<proto::LatticeView>,
    name: Seq<char>,
    update: proto::LatticeUpdateView,
    paths: Seq<Seq<char>>,
    fresh: Seq<char>,
)
    ensures
        ({
            let (after, result) = run_update(
                world,
                lattice_proto::update_first(name, Some(update), Some(paths)),
                fresh,
                3,
            );
            if !world.lattices.contains_key(name) {
                &&& result == Some(Err::<Seq<char>, Seq<char>>("Lattice not found"@))
                &&& after == world
            } else {
                match world.lattices[name] {
                    Err(e) => {
                        &&& result == Some(Err::<Seq<char>, Seq<char>>(e))
                        &&& after == world
                    },
                    Ok(found) => {
                        let changed = lattice_proto::with_version(
                            lattice_proto::updated(found, update, paths),
                            fresh,
                        );
                        &&& result == Some(Ok::<Seq<char>, Seq<char>>(fresh))
                        &&& after.lattices == world.lattices.insert(name, Ok(changed))
                        &&& effects::differ_at(world, after, name)
                    },
                }
            }
        }),
{
    reveal_with_fuel(run_update, 4);
    let (after, _) = run_update(
        world,
        lattice_proto::update_first(name, Some(update), Some(paths)),
        fresh,
        3,
    );
    assert(world.lattices.remove(name) =~= after.lattices.remove(name));
}

/// Changing a lattice touches no field that is not named. The order and repetition of the paths do
/// not matter, nor do paths that name no field.
pub proof fn update_depends_on_the_set_of_paths(
    lattice: proto::LatticeView,
    update: proto::LatticeUpdateView,
    a: Seq<Seq<char>>,
    b: Seq<Seq<char>>,
)
    requires
        a.contains("account"@) <==> b.contains("account"@),
        a.contains("description"@) <==> b.contains("description"@),
        a.contains("signing_keys"@) <==> b.contains("signing_keys"@),
        a.contains("deletable"@) <==> b.contains("deletable"@),
    ensures
        lattice_proto::updated(lattice, update, a) == lattice_proto::updated(lattice, update, b),
        lattice_proto::updated(lattice, update, a).meta == lattice.meta,
        lattice.spec is None ==> lattice_proto::updated(lattice, update, a) == lattice,
        lattice.spec matches Some(before) ==> (lattice_proto::updated(
            lattice,
            update,
            a,
        ).spec matches Some(after) && {
            &&& after.status == before.status
            &&& !a.contains("account"@) ==> after.account == before.account
            &&& !a.contains("description"@) ==> after.description == before.description
            &&& !a.contains("signing_keys"@) ==> after.signing_keys == before.signing_keys
            &&& !a.contains("deletable"@) ==> after.deletable == before.deletable
        }),
        !lattice_proto::names_field(a) ==> lattice_proto::updated(lattice, update, a) == lattice,
{
}

/// Deleting a lattice without applications removes it and answers with it; it is refused as long
/// as it has applications. Nothing else is removed, and nothing at all if the lattice is not there,
/// cannot be read or is refused.
pub proof fn deleted_lattice_is_gone(
    world: World<proto::LatticeView>,
    name: Seq<char>,
    fresh: Seq<char>,
)
    ensures
        ({
            let (after, result) = run_delete(world, lattice_proto::delete_first(name), fresh, 5);
            if !world.lattices.contains_key(name) {
                &&& result == Some(Err::<proto::LatticeView, Seq<char>>("Lattice not found"@))
                &&& after == world
            } else {
                match world.lattices[name] {
                    Err(e) => {
                        &&& result == Some(Err::<proto::LatticeView, Seq<char>>(e))
                        &&& after == world
                    },
                    Ok(found) => if (world.applications)(
                        lattice_wrpc::applications_subject(name),
                        Seq::empty(),
                    ) != lattice_wrpc::no_applications() {
                        &&& result == Some(
                            Err::<proto::LatticeView, Seq<char>>(
                                "Lattice has applications. Delete them first before deleting the lattice"@,
                            ),
                        )
                        &&& after == world
                    } else {
                        let deleting = lattice_proto::with_version(
                            lattice_proto::in_phase(
                                found,
                                proto::LatticePhase::LatticeDeleting,
                            ),
                            fresh,
                        );
                        &&& result == Some(Ok::<proto::LatticeView, Seq<char>>(deleting))
                        &&& after.lattices == world.lattices.remove(name)
                        &&& !after.lattices.contains_key(name)
                        &&& effects::differ_at(world, after, name)
                    },
                }
            }
        }),
{
    reveal_with_fuel(run_delete, 6);
    let (after, _) = run_delete(world, lattice_proto::delete_first(name), fresh, 5);
    assert(after.lattices.remove(name) =~= world.lattices.remove(name));
    if world.lattices.contains_key(name) && world.lattices[name] is Ok && (world.applications)(
        lattice_wrpc::applications_subject(name),
        Seq::empty(),
    ) == lattice_wrpc::no_applications() {
        assert(after.lattices =~= world.lattices.remove(name));
    }
}

/// A lattice in which nothing is set, which is what no bytes at all are a message of.
pub open spec fn nothing_set() -> proto::LatticeView {
    proto::LatticeView { meta: None, spec: None }
}

/// Before it is gone, a lattice that is deleted is emptied: its key is still there, in a revision
/// of its own, and is read as what an empty value is read as, a lattice in which nothing is set.
pub proof fn lattice_being_deleted_is_empty(
    world: World<proto::LatticeView>,
    state: lattice_proto::DeleteLatticeView,
    fresh: Seq<char>,
)
    requires
        state.stage == lattice_proto::DeleteStage::Asking,
        state.lattice is Some,
        world.empty == Ok::<proto::LatticeView, Seq<char>>(nothing_set()),
    ensures
        lattice_proto::delete_next(
            state,
            effects::OutcomeView::Reply(lattice_wrpc::no_applications()),
            fresh,
        ) matches lattice_proto::DeleteStepView::Do(_, effect) && ({
            let during = effects::perform(world, effect).0;
            &&& during.lattices == world.lattices.insert(state.name, Ok(nothing_set()))
            &&& effects::latest(during, state.name) == effects::next_revision(world)
            &&& run_get(during, lattice_proto::get_first(seq![state.name]), 2) == (
                during,
                Some(Ok::<Seq<proto::LatticeView>, Seq<char>>(seq![nothing_set()])),
            )
        }),
{
    let during = effects::written(world, state.name, world.empty);
    stored_lattices_are_read(during, seq![state.name], 1);
    assert(lattices_of(during, seq![state.name]) =~= seq![nothing_set()]);
}

/// The lattice with a name can be read.
pub open spec fn is_readable(world: World<proto::LatticeView>, name: Seq<char>) -> bool {
    world.lattices.contains_key(name) && world.lattices[name] is Ok
}

/// The lattices with these names.
pub open spec fn lattices_of(world: World<proto::LatticeView>, names: Seq<Seq<char>>) -> Seq<
    proto::LatticeView,
> {
    names.map_values(|name: Seq<char>| world.lattices[name]->Ok_0)
}

/// Why reading ends at a name whose lattice cannot be read: it is not there, or is no lattice.
pub open spec fn read_error(world: World<proto::LatticeView>, name: Seq<char>) -> Seq<char> {
    if world.lattices.contains_key(name) {
        world.lattices[name]->Err_0
    } else {
        "Lattice not found"@
    }
}

/// What reading the lattices with these names comes to if the first `n` of them can be read: all of
/// them, or the error of the next.
pub open spec fn read_result(
    world: World<proto::LatticeView>,
    names: Seq<Seq<char>>,
    n: int,
) -> Result<Seq<proto::LatticeView>, Seq<char>> {
    if n == names.len() {
        Ok(lattices_of(world, names))
    } else {
        Err(read_error(world, names[n]))
    }
}

/// Reading goes on from where it is, up to the first name that cannot be read.
proof fn reading_goes_on(
    world: World<proto::LatticeView>,
    state: lattice_proto::GetLatticesView,
    n: int,
    effects: nat,
)
    requires
        state.open,
        state.lattices.len() <= n <= state.names.len(),
        state.lattices == lattices_of(world, state.names.take(state.lattices.len() as int)),
        forall|i: int| 0 <= i < n ==> is_readable(world, #[trigger] state.names[i]),
        n < state.names.len() ==> !is_readable(world, state.names[n]),
        effects >= state.names.len() - state.lattices.len(),
    ensures
        run_get(world, lattice_proto::get_more(state), effects) == (
            world,
            Some(read_result(world, state.names, n)),
        ),
    decreases effects,
{
    let at = state.lattices.len() as int;
    if at < state.names.len() {
        assert(lattice_proto::GetLatticesView { open: true, ..state } == state);
        if at < n {
            let next = lattice_proto::GetLatticesView {
                lattices: state.lattices.push(world.lattices[state.names[at]]->Ok_0),
                ..state
            };
            assert(is_readable(world, state.names[at]));
            assert(next.lattices =~= lattices_of(world, next.names.take(at + 1)));
            reading_goes_on(world, next, n, (effects - 1) as nat);
        } else {
            reveal_with_fuel(run_get, 2);
        }
    } else {
        assert(state.names.take(at) =~= state.names);
    }
}

/// Reading lattices gives each of them, in the order in which they are asked for; if one is not
/// there or is no lattice, the first such one is the error. Nothing changes.
pub proof fn stored_lattices_are_read(
    world: World<proto::LatticeView>,
    names: Seq<Seq<char>>,
    n: int,
)
    requires
        0 <= n <= names.len(),
        forall|i: int| 0 <= i < n ==> is_readable(world, #[trigger] names[i]),
        n < names.len() ==> !is_readable(world, names[n]),
    ensures
        run_get(world, lattice_proto::get_first(names), names.len() + 1) == (
            world,
            Some(read_result(world, names, n)),
        ),
{
    let closed = lattice_proto::GetLatticesView {
        open: false,
        names,
        lattices: Seq::empty(),
    };
    let open = lattice_proto::GetLatticesView { open: true, ..closed };
    reveal_with_fuel(run_get, 2);
    assert(lattices_of(world, names.take(0)) =~= Seq::empty());
    reading_goes_on(world, open, n, names.len());
    assert(lattice_proto::get_more(closed) == lattice_proto::get_more(open)) by {
        assert(lattice_proto::GetLatticesView { open: true, ..open } == open);
    }
}

/// Whatever is asked for, there is a first name that cannot be read, or all of them can.
pub proof fn reading_has_a_result(world: World<proto::LatticeView>, names: Seq<Seq<char>>) -> (n:
    int)
    ensures
        0 <= n <= names.len(),
        forall|i: int| 0 <= i < n ==> is_readable(world, #[trigger] names[i]),
        n < names.len() ==> !is_readable(world, names[n]),
        run_get(world, lattice_proto::get_first(names), names.len() + 1) == (
            world,
            Some(read_result(world, names, n)),
        ),
{
    let n = first_unreadable(world, names);
    stored_lattices_are_read(world, names, n);
    n
}

/// The first name that cannot be read, or the number of names.
proof fn first_unreadable(world: World<proto::LatticeView>, names: Seq<Seq<char>>) -> (n: int)
    ensures
        0 <= n <= names.len(),
        forall|i: int| 0 <= i < n ==> is_readable(world, #[trigger] names[i]),
        n < names.len() ==> !is_readable(world, names[n]),
    decreases names.len(),
{
    if names.len() == 0 {
        0
    } else {
        let front = names.drop_last();
        let n = first_unreadable(world, front);
        assert forall|i: int| 0 <= i < n implies is_readable(world, #[trigger] names[i]) by {
            assert(front[i] == names[i]);
        }
        if n < front.len() {
            assert(front[n] == names[n]);
            n
        } else if is_readable(world, names[n]) {
            n + 1
        } else {
            n
        }
    }
}

/// A lattice that was added is read back under its name: created, as it was prepared or as the
/// generator has completed it. One whose generator failed is read back in provision.
pub proof fn added_lattice_is_read(
    api: LatticeProtoApi,
    world: World<proto::LatticeView>,
    lattice: proto::LatticeView,
    name: Seq<char>,
    version: Seq<char>,
    uid: Seq<char>,
    fresh: Seq<char>,
    context: control::ContextView,
)
    ensures
        ({
            let new = lattice_proto::prepared(lattice, name, version, uid);
            let (after, _) = run_add(
                api,
                world,
                lattice_proto::add_first(name, version, new),
                fresh,
                context,
                7,
            );
            run_get(after, lattice_proto::get_first(seq![name]), 2) == (
                after,
                Some(
                    Ok::<Seq<proto::LatticeView>, Seq<char>>(
                        seq![added(api, world, new, fresh, context)],
                    ),
                ),
            )
        }),
{
    let new = lattice_proto::prepared(lattice, name, version, uid);
    let (after, _) = run_add(
        api,
        world,
        lattice_proto::add_first(name, version, new),
        fresh,
        context,
        7,
    );
    added_lattice_is_stored(api, world, lattice, name, version, uid, fresh, context);
    stored_lattices_are_read(after, seq![name], 1);
    assert(lattices_of(after, seq![name]) =~= seq![added(api, world, new, fresh, context)]);
}

/// A lattice that was changed is read back with the changes.
pub proof fn updated_lattice_is_read(
    world: World<proto::LatticeView>,
    name: Seq<char>,
    update: proto::LatticeUpdateView,
    paths: Seq<Seq<char>>,
    fresh: Seq<char>,
)
    requires
        is_readable(world, name),
    ensures
        ({
            let (after, _) = run_update(
                world,
                lattice_proto::update_first(name, Some(update), Some(paths)),
                fresh,
                3,
            );
            run_get(after, lattice_proto::get_first(seq![name]), 2) == (
                after,
                Some(
                    Ok::<Seq<proto::LatticeView>, Seq<char>>(
                        seq![
                            lattice_proto::with_version(
                                lattice_proto::updated(
                                    world.lattices[name]->Ok_0,
                                    update,
                                    paths,
                                ),
                                fresh,
                            ),
                        ],
                    ),
                ),
            )
        }),
{
    updated_lattice_is_stored(world, name, update, paths, fresh);
    let (after, _) = run_update(
        world,
        lattice_proto::update_first(name, Some(update), Some(paths)),
        fresh,
        3,
    );
    stored_lattices_are_read(after, seq![name], 1);
    assert(lattices_of(after, seq![name]) =~= seq![after.lattices[name]->Ok_0]);
}

/// A lattice that was deleted is not found any more.
pub proof fn deleted_lattice_is_not_read(
    world: World<proto::LatticeView>,
    name: Seq<char>,
    fresh: Seq<char>,
)
    requires
        is_readable(world, name),
        (world.applications)(lattice_wrpc::applications_subject(name), Seq::empty())
            == lattice_wrpc::no_applications(),
    ensures
        ({
            let (after, _) = run_delete(world, lattice_proto::delete_first(name), fresh, 5);
            run_get(after, lattice_proto::get_first(seq![name]), 2) == (
                after,
                Some(Err::<Seq<proto::LatticeView>, Seq<char>>("Lattice not found"@)),
            )
        }),
{
    deleted_lattice_is_gone(world, name, fresh);
    let (after, _) = run_delete(world, lattice_proto::delete_first(name), fresh, 5);
    stored_lattices_are_read(after, seq![name], 0);
}

/// If `outcome` is a lattice that was found, it is complete.
pub open spec fn finds_complete(outcome: effects::OutcomeView<proto::LatticeView>) -> bool {
    outcome matches effects::OutcomeView::Found(Some(lattice)) ==> lattice_proto::is_complete(
        lattice,
    )
}

/// Whatever an effect of adding a lattice comes to, adding goes on with it, and every lattice that
/// is written is complete.
pub proof fn adding_takes_every_outcome(
    api: LatticeProtoApi,
    lattice: proto::LatticeView,
    name: Seq<char>,
    version: Seq<char>,
    uid: Seq<char>,
    state: lattice_proto::AddLatticeView,
    outcome: effects::OutcomeView<proto::LatticeView>,
    fresh: Seq<char>,
    context: control::ContextView,
)
    requires
        lattice_proto::add_expects(state, outcome),
    ensures
        lattice_proto::add_first(
            name,
            version,
            lattice_proto::prepared(lattice, name, version, uid),
        ) matches lattice_proto::AddStepView::Do(first, effect) ==> (forall|
            o: effects::OutcomeView<proto::LatticeView>,
        |
            effects::fits(effect, o) ==> #[trigger] lattice_proto::add_expects(first, o)),
        lattice_proto::add_next(
            api,
            state,
            outcome,
            fresh,
            context,
        ) matches lattice_proto::AddStepView::Do(next, effect) ==> (forall|
            o: effects::OutcomeView<proto::LatticeView>,
        |
            effects::fits(effect, o) ==> #[trigger] lattice_proto::add_expects(next, o)),
        lattice_proto::add_next(
            api,
            state,
            outcome,
            fresh,
            context,
        ) matches lattice_proto::AddStepView::Do(_, effect) ==> (effects::writes(
            effect,
        ) matches Some(written) ==> lattice_proto::is_complete(written.1)),
{
}

/// Whatever an effect of changing a lattice comes to, if a lattice that is found is complete,
/// changing goes on with it, and a lattice that is written is complete.
pub proof fn changing_takes_every_outcome(
    name: Seq<char>,
    update: proto::LatticeUpdateView,
    paths: Seq<Seq<char>>,
    state: lattice_proto::UpdateLatticeView,
    outcome: effects::OutcomeView<proto::LatticeView>,
    fresh: Seq<char>,
)
    requires
        lattice_proto::update_expects(state, outcome),
        finds_complete(outcome),
    ensures
        lattice_proto::update_first(
            name,
            Some(update),
            Some(paths),
        ) matches lattice_proto::UpdateStepView::Do(first, effect) ==> (forall|
            o: effects::OutcomeView<proto::LatticeView>,
        |
            effects::fits(effect, o) && finds_complete(o)
                ==> #[trigger] lattice_proto::update_expects(
                first,
                o,
            )),
        lattice_proto::update_next(state, outcome, fresh) matches lattice_proto::UpdateStepView::Do(
            next,
            effect,
        ) ==> (forall|o: effects::OutcomeView<proto::LatticeView>|
            effects::fits(effect, o) && finds_complete(o)
                ==> #[trigger] lattice_proto::update_expects(
                next,
                o,
            )),
        lattice_proto::update_next(state, outcome, fresh) matches lattice_proto::UpdateStepView::Do(
            _,
            effect,
        ) ==> (effects::writes(effect) matches Some(written) ==> lattice_proto::is_complete(
            written.1,
        )),
{
}

/// Whatever an effect of deleting a lattice comes to, if a lattice that is found is complete,
/// deleting goes on with it.
pub proof fn deleting_takes_every_outcome(
    name: Seq<char>,
    state: lattice_proto::DeleteLatticeView,
    outcome: effects::OutcomeView<proto::LatticeView>,
    fresh: Seq<char>,
)
    requires
        lattice_proto::delete_expects(state, outcome),
        finds_complete(outcome),
        state.lattice is Some ==> lattice_proto::is_complete(state.lattice->Some_0),
    ensures
        lattice_proto::delete_first(name) matches lattice_proto::DeleteStepView::Do(first, effect)
            ==> (forall|o: effects::OutcomeView<proto::LatticeView>|
            effects::fits(effect, o) ==> #[trigger] lattice_proto::delete_expects(first, o)),
        lattice_proto::delete_next(state, outcome, fresh) matches lattice_proto::DeleteStepView::Do(
            next,
            effect,
        ) ==> (forall|o: effects::OutcomeView<proto::LatticeView>|
            effects::fits(effect, o) ==> #[trigger] lattice_proto::delete_expects(next, o)),
        lattice_proto::delete_next(state, outcome, fresh) matches lattice_proto::DeleteStepView::Do(
            next,
            effect,
        ) ==> (next.lattice is Some ==> lattice_proto::is_complete(next.lattice->Some_0)),
{
}

/// Whatever an effect of reading lattices comes to, reading goes on with it, and nothing is
/// written.
pub proof fn reading_takes_every_outcome(
    names: Seq<Seq<char>>,
    state: lattice_proto::GetLatticesView,
    outcome: effects::OutcomeView<proto::LatticeView>,
)
    requires
        lattice_proto::get_expects(state, outcome),
    ensures
        lattice_proto::get_first(names) matches lattice_proto::GetStepView::Do(first, effect) ==> (
        forall|o: effects::OutcomeView<proto::LatticeView>|
            effects::fits(effect, o) ==> #[trigger] lattice_proto::get_expects(first, o)),
        lattice_proto::get_next(state, outcome) matches lattice_proto::GetStepView::Do(next, effect)
            ==> (forall|o: effects::OutcomeView<proto::LatticeView>|
            effects::fits(effect, o) ==> #[trigger] lattice_proto::get_expects(next, o)),
        lattice_proto::get_next(state, outcome) matches lattice_proto::GetStepView::Do(_, effect)
            ==> effects::writes(effect) is None,
{
}

} // verus!
