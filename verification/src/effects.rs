//! What the lattice services want done, and how it went.
use crate::control;
use crate::control::{Context, CreateLatticeResponse};
use vstd::prelude::*;

verus! {

/// Something an operation wants done with lattices of the type `L`.
#[derive(Debug, PartialEq, Eq)]
pub enum Effect<L> {
    /// Create a bucket that is kept in so many copies.
    CreateBucket { bucket: String, replicas: usize },
    /// Open the bucket of the lattices.
    OpenBucket { bucket: String },
    /// Write a lattice, whatever is there.
    Put { key: String, lattice: L },
    /// Write nothing, whatever is there.
    PutEmpty { key: String },
    /// Write a lattice, if the given revision is the latest.
    Update { key: String, lattice: L, revision: u64 },
    /// Read a lattice.
    Get { key: String },
    /// Delete a lattice.
    Delete { key: String },
    /// Send a request.
    Request { subject: String, payload: Vec<u8> },
    /// Have the lattice generator complete a lattice.
    Create { context: Context },
    /// Print a line.
    Print { line: String },
}

/// How an effect went.
#[derive(Debug, PartialEq, Eq)]
pub enum Outcome<L> {
    /// It is done.
    Done,
    /// It failed, as this text says.
    Failed(String),
    /// The lattice is written, in this revision.
    Written(u64),
    /// This is what there is under the key.
    Found(Option<L>),
    /// What there is under the key is no lattice, as this text says.
    Unreadable(String),
    /// The request was answered.
    Reply(Vec<u8>),
    /// The generator has completed the lattice, or failed as this text says.
    Created(Result<CreateLatticeResponse, String>),
}

/// What an [`Effect`] says.
#[verifier::ext_equal]
pub enum EffectView<V> {
    CreateBucket { bucket: Seq<char>, replicas: usize },
    OpenBucket { bucket: Seq<char> },
    Put { key: Seq<char>, lattice: V },
    PutEmpty { key: Seq<char> },
    Update { key: Seq<char>, lattice: V, revision: u64 },
    Get { key: Seq<char> },
    Delete { key: Seq<char> },
    Request { subject: Seq<char>, payload: Seq<u8> },
    Create { context: control::ContextView },
    Print { line: Seq<char> },
}

/// What an [`Outcome`] says.
#[verifier::ext_equal]
pub enum OutcomeView<V> {
    Done,
    Failed(Seq<char>),
    Written(u64),
    Found(Option<V>),
    Unreadable(Seq<char>),
    Reply(Seq<u8>),
    Created(Result<control::CreateLatticeResponseView, Seq<char>>),
}

impl<L: View> View for Effect<L> {
    type V = EffectView<L::V>;

    open spec fn view(&self) -> EffectView<L::V> {
        match self {
            Effect::CreateBucket { bucket, replicas } => EffectView::CreateBucket {
                bucket: bucket@,
                replicas: *replicas,
            },
            Effect::OpenBucket { bucket } => EffectView::OpenBucket { bucket: bucket@ },
            Effect::Put { key, lattice } => EffectView::Put { key: key@, lattice: lattice@ },
            Effect::PutEmpty { key } => EffectView::PutEmpty { key: key@ },
            Effect::Update { key, lattice, revision } => EffectView::Update {
                key: key@,
                lattice: lattice@,
                revision: *revision,
            },
            Effect::Get { key } => EffectView::Get { key: key@ },
            Effect::Delete { key } => EffectView::Delete { key: key@ },
            Effect::Request { subject, payload } => EffectView::Request {
                subject: subject@,
                payload: payload@,
            },
            Effect::Create { context } => EffectView::Create { context: context@ },
            Effect::Print { line } => EffectView::Print { line: line@ },
        }
    }
}

impl<L: View> View for Outcome<L> {
    type V = OutcomeView<L::V>;

    open spec fn view(&self) -> OutcomeView<L::V> {
        match self {
            Outcome::Done => OutcomeView::Done,
            Outcome::Failed(e) => OutcomeView::Failed(e@),
            Outcome::Written(revision) => OutcomeView::Written(*revision),
            Outcome::Found(Some(l)) => OutcomeView::Found(Some(l@)),
            Outcome::Found(None) => OutcomeView::Found(None),
            Outcome::Unreadable(e) => OutcomeView::Unreadable(e@),
            Outcome::Reply(payload) => OutcomeView::Reply(payload@),
            Outcome::Created(Ok(response)) => OutcomeView::Created(Ok(response@)),
            Outcome::Created(Err(e)) => OutcomeView::Created(Err(e@)),
        }
    }
}

/// A store of lattices in which nothing fails but a write on a revision that is not the latest, and
/// what the world around it answers: to each request that is sent, and to each request to complete
/// a lattice.
#[verifier::ext_equal]
pub struct World<V> {
    /// The buckets that were created, each with the number of its copies.
    pub buckets: Map<Seq<char>, usize>,
    /// What the value under each key is read as: a lattice, or the text of why it is none.
    pub lattices: Map<Seq<char>, Result<V, Seq<char>>>,
    /// The latest revision of each key that was ever written or deleted.
    pub revisions: Map<Seq<char>, u64>,
    /// The latest revision of all.
    pub revision: u64,
    /// What an empty value is read as.
    pub empty: Result<V, Seq<char>>,
    /// The text with which a write on a revision that is not the latest is refused.
    pub stale: Seq<char>,
    /// The answer to a request with a payload on a subject.
    pub applications: spec_fn(Seq<char>, Seq<u8>) -> Seq<u8>,
    /// What the lattice generator makes of what it is given.
    pub generator: spec_fn(control::ContextView) -> Result<
        control::CreateLatticeResponseView,
        Seq<char>,
    >,
}

/// The revision that the next write makes.
pub open spec fn next_revision<V>(world: World<V>) -> u64 {
    (world.revision + 1) as u64
}

/// The latest revision of a key: zero if it was never written.
pub open spec fn latest<V>(world: World<V>, key: Seq<char>) -> u64 {
    if world.revisions.contains_key(key) {
        world.revisions[key]
    } else {
        0
    }
}

/// The world in which a value is written under a key, with a revision of its own.
pub open spec fn written<V>(
    world: World<V>,
    key: Seq<char>,
    value: Result<V, Seq<char>>,
) -> World<V> {
    World {
        lattices: world.lattices.insert(key, value),
        revisions: world.revisions.insert(key, next_revision(world)),
        revision: next_revision(world),
        ..world
    }
}

/// The world in which a key is deleted, which makes a revision too.
pub open spec fn deleted<V>(world: World<V>, key: Seq<char>) -> World<V> {
    World {
        lattices: world.lattices.remove(key),
        revisions: world.revisions.insert(key, next_revision(world)),
        revision: next_revision(world),
        ..world
    }
}

/// What reading a key gives.
pub open spec fn read<V>(world: World<V>, key: Seq<char>) -> OutcomeView<V> {
    if world.lattices.contains_key(key) {
        match world.lattices[key] {
            Ok(lattice) => OutcomeView::Found(Some(lattice)),
            Err(e) => OutcomeView::Unreadable(e),
        }
    } else {
        OutcomeView::Found(None)
    }
}

/// Performs an effect.
pub open spec fn perform<V>(world: World<V>, effect: EffectView<V>) -> (World<V>, OutcomeView<V>) {
    match effect {
        EffectView::CreateBucket { bucket, replicas } => (
            World { buckets: world.buckets.insert(bucket, replicas), ..world },
            OutcomeView::Done,
        ),
        EffectView::OpenBucket { .. } => (world, OutcomeView::Done),
        EffectView::Put { key, lattice } => (
            written(world, key, Ok(lattice)),
            OutcomeView::Written(next_revision(world)),
        ),
        EffectView::PutEmpty { key } => (
            written(world, key, world.empty),
            OutcomeView::Written(next_revision(world)),
        ),
        EffectView::Update { key, lattice, revision } => if latest(world, key) == revision {
            (written(world, key, Ok(lattice)), OutcomeView::Done)
        } else {
            (world, OutcomeView::Failed(world.stale))
        },
        EffectView::Get { key } => (world, read(world, key)),
        EffectView::Delete { key } => (deleted(world, key), OutcomeView::Done),
        EffectView::Request { subject, payload } => (
            world,
            OutcomeView::Reply((world.applications)(subject, payload)),
        ),
        EffectView::Create { context } => (world, OutcomeView::Created((world.generator)(context))),
        EffectView::Print { .. } => (world, OutcomeView::Done),
    }
}

/// `outcome` is one that `effect` can have.
pub open spec fn fits<V>(effect: EffectView<V>, outcome: OutcomeView<V>) -> bool {
    match effect {
        EffectView::CreateBucket { .. } | EffectView::OpenBucket { .. } | EffectView::Update {
            ..
        } | EffectView::Delete { .. } => outcome is Done || outcome is Failed,
        EffectView::Put { .. } | EffectView::PutEmpty { .. } => outcome is Written
            || outcome is Failed,
        EffectView::Get { .. } => outcome is Found || outcome is Unreadable || outcome is Failed,
        EffectView::Request { .. } => outcome is Reply || outcome is Failed,
        EffectView::Create { .. } => outcome is Created,
        EffectView::Print { .. } => outcome is Done,
    }
}

/// The lattice that `effect` writes and the key that it writes it under, if it writes one.
pub open spec fn writes<V>(effect: EffectView<V>) -> Option<(Seq<char>, V)> {
    match effect {
        EffectView::Put { key, lattice } => Some((key, lattice)),
        EffectView::Update { key, lattice, .. } => Some((key, lattice)),
        _ => None,
    }
}

/// Two worlds that differ at most in what is under one key and in the revisions.
pub open spec fn differ_at<V>(a: World<V>, b: World<V>, key: Seq<char>) -> bool {
    &&& b == (World {
        lattices: b.lattices,
        revisions: b.revisions,
        revision: b.revision,
        ..a
    })
    &&& a.lattices.remove(key) == b.lattices.remove(key)
    &&& forall|other: Seq<char>| other != key ==> #[trigger] latest(b, other) == latest(a, other)
}

/// Performing an effect has an outcome that the effect can have. A read gives what was last
/// written under its key, whatever is done under other keys.
pub proof fn what_is_written_is_read<V>(
    world: World<V>,
    key: Seq<char>,
    lattice: V,
    other: Seq<char>,
    effect: EffectView<V>,
)
    ensures
        fits(effect, perform(world, effect).1),
        perform(perform(world, EffectView::Put { key, lattice }).0, EffectView::Get { key }).1
            == OutcomeView::Found(Some(lattice)),
        other != key ==> read(perform(world, EffectView::Put { key: other, lattice }).0, key)
            == read(world, key),
        other != key ==> read(perform(world, EffectView::Delete { key: other }).0, key) == read(
            world,
            key,
        ),
        read(perform(world, EffectView::Delete { key }).0, key) == OutcomeView::<V>::Found(None),
{
}

} // verus!
