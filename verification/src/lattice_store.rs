//! What the operations of the lattice service do to a store: what one operation writes, the next
//! one reads.
use crate::control;
use crate::effects;
use crate::effects::World;
use crate::ids;
use crate::lattice_wrpc;
use crate::lattice_wrpc::LatticeWrpcApi;
use vstd::prelude::*;

verus! {

/// Adds a lattice, in at most so many effects.
pub open spec fn run_add(
    api: LatticeWrpcApi,
    world: World<control::LatticeView>,
    step: lattice_wrpc::AddStepView,
    effects: nat,
) -> (World<control::LatticeView>, Option<Result<Result<Seq<char>, Seq<char>>, Seq<char>>>)
    decreases effects,
{
    match step {
        lattice_wrpc::AddStepView::Finish(result) => (world, Some(result)),
        lattice_wrpc::AddStepView::Do(state, effect) => if effects == 0 {
            (world, None)
        } else {
            let (after, outcome) = effects::perform(world, effect);
            run_add(
                api,
                after,
                lattice_wrpc::add_next(api, state, outcome),
                (effects - 1) as nat,
            )
        },
    }
}

/// Changes a lattice, in at most so many effects and with `fresh` for a new version.
pub open spec fn run_update(
    world: World<control::LatticeView>,
    step: lattice_wrpc::UpdateStepView,
    fresh: Seq<char>,
    effects: nat,
) -> (World<control::LatticeView>, Option<Result<Seq<char>, Seq<char>>>)
    decreases effects,
{
    match step {
        lattice_wrpc::UpdateStepView::Finish(result) => (world, Some(result)),
        lattice_wrpc::UpdateStepView::Do(state, effect) => if effects == 0 {
            (world, None)
        } else {
            let (after, outcome) = effects::perform(world, effect);
            run_update(
                after,
                lattice_wrpc::update_next(state, outcome, fresh),
                fresh,
                (effects - 1) as nat,
            )
        },
    }
}

/// Deletes a lattice, in at most so many effects.
pub open spec fn run_delete(
    world: World<control::LatticeView>,
    step: lattice_wrpc::DeleteStepView,
    effects: nat,
) -> (World<control::LatticeView>, Option<Result<control::LatticeView, Seq<char>>>)
    decreases effects,
{
    match step {
        lattice_wrpc::DeleteStepView::Finish(result) => (world, Some(result)),
        lattice_wrpc::DeleteStepView::Do(state, effect) => if effects == 0 {
            (world, None)
        } else {
            let (after, outcome) = effects::perform(world, effect);
            run_delete(
                after,
                lattice_wrpc::delete_next(state, outcome),
                (effects - 1) as nat,
            )
        },
    }
}

/// Reads lattices, in at most so many effects.
pub open spec fn run_get(
    world: World<control::LatticeView>,
    step: lattice_wrpc::GetStepView,
    effects: nat,
) -> (World<control::LatticeView>, Option<Result<Seq<control::LatticeView>, Seq<char>>>)
    decreases effects,
{
    match step {
        lattice_wrpc::GetStepView::Finish(result) => (world, Some(result)),
        lattice_wrpc::GetStepView::Do(state, effect) => if effects == 0 {
            (world, None)
        } else {
            let (after, outcome) = effects::perform(world, effect);
            run_get(
                after,
                lattice_wrpc::get_next(state, outcome),
                (effects - 1) as nat,
            )
        },
    }
}

/// The lattice that is stored once the lattice `new` has been added: created, as it was prepared or
/// as the generator has completed it; if the generator fails, it stays in provision.
pub open spec fn added(
    api: LatticeWrpcApi,
    world: World<control::LatticeView>,
    new: control::LatticeView,
) -> control::LatticeView {
    if !api.component {
        lattice_wrpc::in_phase(new, control::LatticePhase::Created)
    } else {
        match (world.generator)(lattice_wrpc::context_of(api, new)) {
            Ok(response) => lattice_wrpc::in_phase(
                response.lattice,
                control::LatticePhase::Created,
            ),
            Err(_) => new,
        }
    }
}

/// The answer to a request to add the lattice `new`: its version, or the failure of the generator.
pub open spec fn add_answer(
    api: LatticeWrpcApi,
    world: World<control::LatticeView>,
    new: control::LatticeView,
) -> Result<Seq<char>, Seq<char>> {
    match (api.component, (world.generator)(lattice_wrpc::context_of(api, new))) {
        (true, Err(e)) => Err("Error invoking component: "@ + e),
        _ => Ok(new.metadata.version),
    }
}

/// Adding a lattice creates its two buckets and stores it under its name, and the answer is its
/// version. It is stored as created, as it was prepared or as the generator has completed it; if
/// the generator fails, it stays in provision and the answer is the failure. Nothing else changes.
pub proof fn added_lattice_is_stored(
    api: LatticeWrpcApi,
    world: World<control::LatticeView>,
    lattice: control::LatticeView,
    version: Seq<char>,
    uid: Seq<char>,
)
    requires
        lattice.metadata.name.len() > 0,
    ensures
        ({
            let new = lattice_wrpc::prepared(lattice, version, uid);
            let name = lattice.metadata.name;
            let (after, result) = run_add(api, world, lattice_wrpc::add_first(new), 7);
            &&& result == Some(
                Ok::<Result<Seq<char>, Seq<char>>, Seq<char>>(add_answer(api, world, new)),
            )
            &&& after.buckets == world.buckets.insert("LATTICEDATA_"@ + name, 1).insert(
                "CONFIGDATA_"@ + name,
                1,
            )
            &&& after.lattices == world.lattices.insert(name, Ok(added(api, world, new)))
            &&& effects::differ_at(World { buckets: after.buckets, ..world }, after, name)
        }),
{
    reveal_with_fuel(run_add, 8);
    let new = lattice_wrpc::prepared(lattice, version, uid);
    let name = lattice.metadata.name;
    let (after, _) = run_add(api, world, lattice_wrpc::add_first(new), 7);
    assert(after.lattices =~= world.lattices.insert(name, Ok(added(api, world, new))));
    assert(world.lattices.remove(name) =~= after.lattices.remove(name));
}

/// Adding a lattice does not overwrite what someone else has written under its name while it was
/// being completed: the last write is refused, and so is the request.
pub proof fn concurrent_write_is_kept(
    api: LatticeWrpcApi,
    world: World<control::LatticeView>,
    state: lattice_wrpc::AddLatticeView,
    effects: nat,
)
    requires
        effects::latest(world, state.name) != state.revision,
        effects > 0,
    ensures
        run_add(api, world, lattice_wrpc::add_update(state), effects) == (
            world,
            Some(Err::<Result<Seq<char>, Seq<char>>, Seq<char>>(world.stale)),
        ),
{
    reveal_with_fuel(run_add, 2);
}

/// A new lattice has a version and an identifier, keeps its name, and is in provision.
pub proof fn prepared_lattice_is_identified(
    lattice: control::LatticeView,
    version: Seq<char>,
    uid: Seq<char>,
)
    requires
        ids::is_ulid(version),
        ids::is_uuid(uid),
    ensures
        ({
            let new = lattice_wrpc::prepared(lattice, version, uid);
            &&& new.metadata.name == lattice.metadata.name
            &&& new.metadata.version.len() > 0
            &&& lattice.metadata.version.len() > 0 ==> new.metadata.version
                == lattice.metadata.version
            &&& new.metadata.uid == uid
            &&& new.metadata.uid.len() > 0
            &&& new.status.phase == control::LatticePhase::Provisioning
        }),
{
}

/// Changing a lattice stores it, under the name that it has, with the fields that are named changed
/// and all else but the version as it was; the answer is its version. If no field of a lattice is
/// named, nothing is written. A lattice that is not there or cannot be read is not changed.
pub proof fn updated_lattice_is_stored(
    world: World<control::LatticeView>,
    update: control::LatticeUpdateView,
    paths: Seq<Seq<char>>,
    fresh: Seq<char>,
)
    requires
        paths.len() > 0,
    ensures
        ({
            let (after, result) = run_update(
                world,
                lattice_wrpc::update_first(update, paths),
                fresh,
                3,
            );
            if !world.lattices.contains_key(update.lattice) {
                &&& result == Some(Err::<Seq<char>, Seq<char>>("Lattice not found"@))
                &&& after == world
            } else {
                match world.lattices[update.lattice] {
                    Err(e) => {
                        &&& result == Some(Err::<Seq<char>, Seq<char>>(e))
                        &&& after == world
                    },
                    Ok(found) => if lattice_wrpc::modifies(paths) {
                        let name = found.metadata.name;
                        let changed = lattice_wrpc::with_version(
                            lattice_wrpc::updated(found, update, paths),
                            fresh,
                        );
                        &&& result == Some(Ok::<Seq<char>, Seq<char>>(fresh))
                        &&& after.lattices == world.lattices.insert(name, Ok(changed))
                        &&& effects::differ_at(world, after, name)
                    } else {
                        &&& result == Some(Ok::<Seq<char>, Seq<char>>(found.metadata.version))
                        &&& after == world
                    },
                }
            }
        }),
{
    reveal_with_fuel(run_update, 4);
    if world.lattices.contains_key(update.lattice) && world.lattices[update.lattice] is Ok
        && lattice_wrpc::modifies(paths) {
        let found = world.lattices[update.lattice]->Ok_0;
        let (after, _) = run_update(world, lattice_wrpc::update_first(update, paths), fresh, 3);
        assert(world.lattices.remove(found.metadata.name) =~= after.lattices.remove(
            found.metadata.name,
        ));
    }
}

/// Changing a lattice touches no field that is not named. The order and repetition of the paths do
/// not matter, nor do paths that name no field.
pub proof fn update_depends_on_the_set_of_paths(
    lattice: control::LatticeView,
    update: control::LatticeUpdateView,
    a: Seq<Seq<char>>,
    b: Seq<Seq<char>>,
)
    requires
        a.contains("account"@) <==> b.contains("account"@),
        a.contains("description"@) <==> b.contains("description"@),
        a.contains("signing_keys"@) <==> b.contains("signing_keys"@),
        a.contains("deletable"@) <==> b.contains("deletable"@),
    ensures
        lattice_wrpc::updated(lattice, update, a) == lattice_wrpc::updated(lattice, update, b),
        lattice_wrpc::modifies(a) <==> lattice_wrpc::modifies(b),
        !lattice_wrpc::modifies(a) ==> lattice_wrpc::updated(lattice, update, a) == lattice,
        lattice_wrpc::updated(lattice, update, a).metadata == lattice.metadata,
        lattice_wrpc::updated(lattice, update, a).status == lattice.status,
        !a.contains("account"@) ==> lattice_wrpc::updated(lattice, update, a).account
            == lattice.account,
        !a.contains("description"@) ==> lattice_wrpc::updated(lattice, update, a).description
            == lattice.description,
        !a.contains("signing_keys"@) ==> lattice_wrpc::updated(
            lattice,
            update,
            a,
        ).signing_keys == lattice.signing_keys,
        !a.contains("deletable"@) ==> lattice_wrpc::updated(lattice, update, a).deletable
            == lattice.deletable,
{
    modifies_names_a_field(a);
    modifies_names_a_field(b);
}

/// An update changes a lattice exactly if its paths contain one of the fields.
pub proof fn modifies_names_a_field(paths: Seq<Seq<char>>)
    ensures
        lattice_wrpc::modifies(paths) <==> paths.contains("account"@) || paths.contains(
            "description"@,
        ) || paths.contains("signing_keys"@) || paths.contains("deletable"@),
{
    if lattice_wrpc::modifies(paths) {
        let i = choose|i: int|
            0 <= i < paths.len() && lattice_wrpc::is_field(#[trigger] paths[i]);
        assert(paths.contains(paths[i]));
    }
    assert forall|path: Seq<char>| #[trigger]
        paths.contains(path) && lattice_wrpc::is_field(path) implies lattice_wrpc::modifies(
        paths,
    ) by {
        let i = choose|i: int| 0 <= i < paths.len() && paths[i] == path;
        assert(lattice_wrpc::is_field(paths[i]));
    }
}

/// Deleting a lattice without applications removes what is under the name that it has, and answers
/// with it; it is refused as long as it has applications. Nothing else is removed, and nothing at
/// all if the lattice is not there, cannot be read or is refused.
pub proof fn deleted_lattice_is_gone(world: World<control::LatticeView>, name: Seq<char>)
    ensures
        ({
            let (after, result) = run_delete(world, lattice_wrpc::delete_first(name), 5);
            if !world.lattices.contains_key(name) {
                &&& result == Some(
                    Err::<control::LatticeView, Seq<char>>("Lattice not found"@),
                )
                &&& after == world
            } else {
                match world.lattices[name] {
                    Err(e) => {
                        &&& result == Some(Err::<control::LatticeView, Seq<char>>(e))
                        &&& after == world
                    },
                    Ok(found) => if (world.applications)(
                        lattice_wrpc::applications_subject(name),
                        Seq::empty(),
                    ) != lattice_wrpc::no_applications() {
                        &&& result == Some(
                            Err::<control::LatticeView, Seq<char>>(
                                "Lattice has applications. Delete them first before deleting the lattice"@,
                            ),
                        )
                        &&& after == world
                    } else {
                        let deleting = lattice_wrpc::in_phase(
                            found,
                            control::LatticePhase::Deleting,
                        );
                        &&& result == Some(Ok::<control::LatticeView, Seq<char>>(deleting))
                        &&& after.lattices == world.lattices.remove(found.metadata.name)
                        &&& found.metadata.name == name ==> !after.lattices.contains_key(name)
                        &&& effects::differ_at(world, after, found.metadata.name)
                    },
                }
            }
        }),
{
    reveal_with_fuel(run_delete, 6);
    if world.lattices.contains_key(name) && world.lattices[name] is Ok && (world.applications)(
        lattice_wrpc::applications_subject(name),
        Seq::empty(),
    ) == lattice_wrpc::no_applications() {
        let own = world.lattices[name]->Ok_0.metadata.name;
        let (after, _) = run_delete(world, lattice_wrpc::delete_first(name), 5);
        assert(after.lattices =~= world.lattices.remove(own));
        assert(world.lattices.remove(own) =~= after.lattices.remove(own));
    }
}

/// The lattice with a name can be read.
pub open spec fn is_readable(world: World<control::LatticeView>, name: Seq<char>) -> bool {
    world.lattices.contains_key(name) && world.lattices[name] is Ok
}

/// The lattices with these names.
pub open spec fn lattices_of(world: World<control::LatticeView>, names: Seq<Seq<char>>) -> Seq<
    control::LatticeView,
> {
    names.map_values(|name: Seq<char>| world.lattices[name]->Ok_0)
}

/// Why reading ends at a name whose lattice cannot be read: it is not there, or is no lattice.
pub open spec fn read_error(world: World<control::LatticeView>, name: Seq<char>) -> Seq<char> {
    if world.lattices.contains_key(name) {
        world.lattices[name]->Err_0
    } else {
        "Lattice not found"@
    }
}

/// What reading the lattices with these names comes to if the first `n` of them can be read: all of
/// them, or the error of the next.
pub open spec fn read_result(
    world: World<control::LatticeView>,
    names: Seq<Seq<char>>,
    n: int,
) -> Result<Seq<control::LatticeView>, Seq<char>> {
    if n == names.len() {
        Ok(lattices_of(world, names))
    } else {
        Err(read_error(world, names[n]))
    }
}

/// Reading goes on from where it is, up to the first name that cannot be read.
proof fn reading_goes_on(
    world: World<control::LatticeView>,
    state: lattice_wrpc::GetLatticesView,
    n: int,
    effects: nat,
)
    requires
        state.open,
        state.lattices.len() <= n <= state.names.len(),
        state.lattices == lattices_of(world, state.names.take(state.lattices.len() as int)),
        forall|i: int| 0 <= i < n ==> is_readable(world, #[trigger] state.names[i]),
        n < state.names.len() ==> !is_readable(world, state.names[n]),
        effects >= state.names.len() - state.lattices.len(),
    ensures
        run_get(world, lattice_wrpc::get_more(state), effects) == (
            world,
            Some(read_result(world, state.names, n)),
        ),
    decreases effects,
{
    let at = state.lattices.len() as int;
    if at < state.names.len() {
        assert(lattice_wrpc::GetLatticesView { open: true, ..state } == state);
        if at < n {
            let next = lattice_wrpc::GetLatticesView {
                lattices: state.lattices.push(world.lattices[state.names[at]]->Ok_0),
                ..state
            };
            assert(is_readable(world, state.names[at]));
            assert(next.lattices =~= lattices_of(world, next.names.take(at + 1)));
            reading_goes_on(world, next, n, (effects - 1) as nat);
        } else {
            reveal_with_fuel(run_get, 2);
        }
    } else {
        assert(state.names.take(at) =~= state.names);
    }
}

/// Reading lattices gives each of them, in the order in which they are asked for; if one is not
/// there or is no lattice, the first such one is the error. Nothing changes.
pub proof fn stored_lattices_are_read(
    world: World<control::LatticeView>,
    names: Seq<Seq<char>>,
    n: int,
)
    requires
        0 <= n <= names.len(),
        forall|i: int| 0 <= i < n ==> is_readable(world, #[trigger] names[i]),
        n < names.len() ==> !is_readable(world, names[n]),
    ensures
        run_get(world, lattice_wrpc::get_first(names), names.len() + 1) == (
            world,
            Some(read_result(world, names, n)),
        ),
{
    let closed = lattice_wrpc::GetLatticesView {
        open: false,
        names,
        lattices: Seq::empty(),
    };
    let open = lattice_wrpc::GetLatticesView { open: true, ..closed };
    reveal_with_fuel(run_get, 2);
    assert(lattices_of(world, names.take(0)) =~= Seq::empty());
    reading_goes_on(world, open, n, names.len());
    assert(lattice_wrpc::get_more(closed) == lattice_wrpc::get_more(open)) by {
        assert(lattice_wrpc::GetLatticesView { open: true, ..open } == open);
    }
}

/// Whatever is asked for, there is a first name that cannot be read, or all of them can.
pub proof fn reading_has_a_result(world: World<control::LatticeView>, names: Seq<Seq<char>>) -> (n:
    int)
    ensures
        0 <= n <= names.len(),
        forall|i: int| 0 <= i < n ==> is_readable(world, #[trigger] names[i]),
        n < names.len() ==> !is_readable(world, names[n]),
        run_get(world, lattice_wrpc::get_first(names), names.len() + 1) == (
            world,
            Some(read_result(world, names, n)),
        ),
{
    let n = first_unreadable(world, names);
    stored_lattices_are_read(world, names, n);
    n
}

/// The first name that cannot be read, or the number of names.
proof fn first_unreadable(world: World<control::LatticeView>, names: Seq<Seq<char>>) -> (n: int)
    ensures
        0 <= n <= names.len(),
        forall|i: int| 0 <= i < n ==> is_readable(world, #[trigger] names[i]),
        n < names.len() ==> !is_readable(world, names[n]),
    decreases names.len(),
{
    if names.len() == 0 {
        0
    } else {
        let front = names.drop_last();
        let n = first_unreadable(world, front);
        assert forall|i: int| 0 <= i < n implies is_readable(world, #[trigger] names[i]) by {
            assert(front[i] == names[i]);
        }
        if n < front.len() {
            assert(front[n] == names[n]);
            n
        } else if is_readable(world, names[n]) {
            n + 1
        } else {
            n
        }
    }
}

/// A lattice that was added is read back under its name: created, with the version that was the
/// answer, or as the generator has completed it. One whose generator failed is read back in
/// provision.
pub proof fn added_lattice_is_read(
    api: LatticeWrpcApi,
    world: World<control::LatticeView>,
    lattice: control::LatticeView,
    version: Seq<char>,
    uid: Seq<char>,
)
    requires
        lattice.metadata.name.len() > 0,
    ensures
        ({
            let new = lattice_wrpc::prepared(lattice, version, uid);
            let name = lattice.metadata.name;
            let (after, _) = run_add(api, world, lattice_wrpc::add_first(new), 7);
            run_get(after, lattice_wrpc::get_first(seq![name]), 2) == (
                after,
                Some(
                    Ok::<Seq<control::LatticeView>, Seq<char>>(seq![added(api, world, new)]),
                ),
            )
        }),
{
    let new = lattice_wrpc::prepared(lattice, version, uid);
    let name = lattice.metadata.name;
    let (after, _) = run_add(api, world, lattice_wrpc::add_first(new), 7);
    added_lattice_is_stored(api, world, lattice, version, uid);
    stored_lattices_are_read(after, seq![name], 1);
    assert(lattices_of(after, seq![name]) =~= seq![added(api, world, new)]);
}

/// A lattice that was changed is read back with the changes.
pub proof fn updated_lattice_is_read(
    world: World<control::LatticeView>,
    update: control::LatticeUpdateView,
    paths: Seq<Seq<char>>,
    fresh: Seq<char>,
)
    requires
        lattice_wrpc::modifies(paths),
        is_readable(world, update.lattice),
    ensures
        ({
            let found = world.lattices[update.lattice]->Ok_0;
            let (after, _) = run_update(
                world,
                lattice_wrpc::update_first(update, paths),
                fresh,
                3,
            );
            run_get(after, lattice_wrpc::get_first(seq![found.metadata.name]), 2) == (
                after,
                Some(
                    Ok::<Seq<control::LatticeView>, Seq<char>>(
                        seq![
                            lattice_wrpc::with_version(
                                lattice_wrpc::updated(found, update, paths),
                                fresh,
                            ),
                        ],
                    ),
                ),
            )
        }),
{
    updated_lattice_is_stored(world, update, paths, fresh);
    let name = world.lattices[update.lattice]->Ok_0.metadata.name;
    let (after, _) = run_update(
        world,
        lattice_wrpc::update_first(update, paths),
        fresh,
        3,
    );
    stored_lattices_are_read(after, seq![name], 1);
    assert(lattices_of(after, seq![name]) =~= seq![after.lattices[name]->Ok_0]);
}

/// A lattice that was deleted is not found any more.
pub proof fn deleted_lattice_is_not_read(world: World<control::LatticeView>, name: Seq<char>)
    requires
        is_readable(world, name),
        world.lattices[name]->Ok_0.metadata.name == name,
        (world.applications)(lattice_wrpc::applications_subject(name), Seq::empty())
            == lattice_wrpc::no_applications(),
    ensures
        ({
            let (after, _) = run_delete(world, lattice_wrpc::delete_first(name), 5);
            run_get(after, lattice_wrpc::get_first(seq![name]), 2) == (
                after,
                Some(Err::<Seq<control::LatticeView>, Seq<char>>("Lattice not found"@)),
            )
        }),
{
    deleted_lattice_is_gone(world, name);
    let (after, _) = run_delete(world, lattice_wrpc::delete_first(name), 5);
    stored_lattices_are_read(after, seq![name], 0);
}

/// Whatever an effect of adding a lattice comes to, adding goes on with it.
pub proof fn adding_takes_every_outcome(
    api: LatticeWrpcApi,
    lattice: control::LatticeView,
    state: lattice_wrpc::AddLatticeView,
    outcome: effects::OutcomeView<control::LatticeView>,
)
    requires
        lattice_wrpc::add_expects(state.stage, outcome),
    ensures
        lattice_wrpc::add_first(lattice) matches lattice_wrpc::AddStepView::Do(first, effect) ==> (
        forall|o: effects::OutcomeView<control::LatticeView>|
            effects::fits(effect, o) ==> #[trigger] lattice_wrpc::add_expects(first.stage, o)),
        lattice_wrpc::add_next(api, state, outcome) matches lattice_wrpc::AddStepView::Do(
            next,
            effect,
        ) ==> (forall|o: effects::OutcomeView<control::LatticeView>|
            effects::fits(effect, o) ==> #[trigger] lattice_wrpc::add_expects(next.stage, o)),
{
}

/// Whatever an effect of changing a lattice comes to, changing goes on with it; what is written is
/// written under its own name.
pub proof fn changing_takes_every_outcome(
    update: control::LatticeUpdateView,
    paths: Seq<Seq<char>>,
    state: lattice_wrpc::UpdateLatticeView,
    outcome: effects::OutcomeView<control::LatticeView>,
    fresh: Seq<char>,
)
    requires
        lattice_wrpc::update_expects(state.stage, outcome),
    ensures
        lattice_wrpc::update_first(update, paths) matches lattice_wrpc::UpdateStepView::Do(
            first,
            effect,
        ) ==> (forall|o: effects::OutcomeView<control::LatticeView>|
            effects::fits(effect, o) ==> #[trigger] lattice_wrpc::update_expects(first.stage, o)),
        lattice_wrpc::update_next(state, outcome, fresh) matches lattice_wrpc::UpdateStepView::Do(
            next,
            effect,
        ) ==> (forall|o: effects::OutcomeView<control::LatticeView>|
            effects::fits(effect, o) ==> #[trigger] lattice_wrpc::update_expects(next.stage, o)),
        lattice_wrpc::update_next(state, outcome, fresh) matches lattice_wrpc::UpdateStepView::Do(
            _,
            effect,
        ) ==> (effects::writes(effect) matches Some(written) ==> written.0
            == written.1.metadata.name),
{
}

/// Whatever an effect of deleting a lattice comes to, deleting goes on with it; what is written is
/// written under its own name.
pub proof fn deleting_takes_every_outcome(
    name: Seq<char>,
    state: lattice_wrpc::DeleteLatticeView,
    outcome: effects::OutcomeView<control::LatticeView>,
)
    requires
        lattice_wrpc::delete_expects(state, outcome),
    ensures
        lattice_wrpc::delete_first(name) matches lattice_wrpc::DeleteStepView::Do(first, effect)
            ==> (forall|o: effects::OutcomeView<control::LatticeView>|
            effects::fits(effect, o) ==> #[trigger] lattice_wrpc::delete_expects(first, o)),
        lattice_wrpc::delete_next(state, outcome) matches lattice_wrpc::DeleteStepView::Do(
            next,
            effect,
        ) ==> (forall|o: effects::OutcomeView<control::LatticeView>|
            effects::fits(effect, o) ==> #[trigger] lattice_wrpc::delete_expects(next, o)),
        lattice_wrpc::delete_next(state, outcome) matches lattice_wrpc::DeleteStepView::Do(
            _,
            effect,
        ) ==> (effects::writes(effect) matches Some(written) ==> written.0
            == written.1.metadata.name),
{
}

/// Whatever an effect of reading lattices comes to, reading goes on with it, and nothing is
/// written.
pub proof fn reading_takes_every_outcome(
    names: Seq<Seq<char>>,
    state: lattice_wrpc::GetLatticesView,
    outcome: effects::OutcomeView<control::LatticeView>,
)
    requires
        lattice_wrpc::get_expects(state, outcome),
    ensures
        lattice_wrpc::get_first(names) matches lattice_wrpc::GetStepView::Do(first, effect) ==> (
        forall|o: effects::OutcomeView<control::LatticeView>|
            effects::fits(effect, o) ==> #[trigger] lattice_wrpc::get_expects(first, o)),
        lattice_wrpc::get_next(state, outcome) matches lattice_wrpc::GetStepView::Do(next, effect)
            ==> (forall|o: effects::OutcomeView<control::LatticeView>|
            effects::fits(effect, o) ==> #[trigger] lattice_wrpc::get_expects(next, o)),
        lattice_wrpc::get_next(state, outcome) matches lattice_wrpc::GetStepView::Do(_, effect)
            ==> effects::writes(effect) is None,
{
}

} // verus!
