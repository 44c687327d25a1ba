//! The lattice service: adding, changing, listing, reading, deleting and watching lattices.
//!
//! Each operation that touches the store is a machine: it names an [`Effect`] to be performed and
//! takes the [`Outcome`] of it, until it has a result.
use crate::config::{Args, Config};
use crate::control;
use crate::control::{
    Context, CreateLatticeResponse, Health, Lattice, LatticePhase, LatticeStatus, LatticeUpdate,
};
use crate::effects::{Effect, EffectView, Outcome, OutcomeView};
use crate::ids;
use crate::ids::{new_ulid, new_uuid};
use crate::text;
use crate::text::{concatenate, copy_optional_list, copy_text, same, split};
use vstd::prelude::*;
use vstd::string::*;

verus! {

/// The subject of the service.
pub const LATTICE_SUBJECT: &'static str = "wasmcloud.lattice.v1alpha1";

/// The bucket of the lattices.
pub const LATTICE_BUCKET: &'static str = "WASMCLOUD_LATTICES";

/// The object store of the components.
pub const OBJ_BUCKET: &'static str = "WASMCLOUD_OBJECTS";

/// The lattice service.
#[derive(Debug, PartialEq, Eq)]
pub struct LatticeWrpcApi {
    pub nats_url: String,
    /// Whether there is a lattice generator.
    pub component: bool,
    pub operator_key: Option<String>,
    pub system_account: Option<String>,
}

/// `lattice` in the phase `phase`.
pub open spec fn in_phase(
    lattice: control::LatticeView,
    phase: LatticePhase,
) -> control::LatticeView {
    control::LatticeView { status: LatticeStatus { phase }, ..lattice }
}

/// A new lattice as it is first written: it keeps the version it has, or gets `version`.
pub open spec fn prepared(
    lattice: control::LatticeView,
    version: Seq<char>,
    uid: Seq<char>,
) -> control::LatticeView {
    control::LatticeView {
        metadata: control::MetadataView {
            version: if lattice.metadata.version.len() == 0 {
                version
            } else {
                lattice.metadata.version
            },
            uid,
            ..lattice.metadata
        },
        ..in_phase(lattice, LatticePhase::Provisioning)
    }
}

/// A new lattice as it is first written.
pub fn prepare(lattice: Lattice, version: String, uid: String) -> (r: Lattice)
    ensures
        r@ == prepared(lattice@, version@, uid@),
{
    let mut lattice = lattice;
    if lattice.metadata.version.as_str().is_empty() {
        lattice.metadata.version = version;
    }
    lattice.metadata.uid = uid;
    lattice.status.phase = LatticePhase::Provisioning;
    lattice
}

/// How far adding a lattice has come: what is being done.
#[derive(Clone, Copy, Debug, PartialEq, Eq, Structural)]
pub enum AddStage {
    DataBucket,
    ConfigBucket,
    Opening,
    Writing,
    Creating,
    Printing,
    Updating,
}

/// Adding a lattice.
#[derive(Debug, PartialEq, Eq)]
pub struct AddLattice {
    pub stage: AddStage,
    pub name: String,
    pub version: String,
    pub lattice: Lattice,
    pub revision: u64,
}

/// What an [`AddLattice`] says.
#[verifier::ext_equal]
pub struct AddLatticeView {
    pub stage: AddStage,
    pub name: Seq<char>,
    pub version: Seq<char>,
    pub lattice: control::LatticeView,
    pub revision: u64,
}

impl View for AddLattice {
    type V = AddLatticeView;

    open spec fn view(&self) -> AddLatticeView {
        AddLatticeView {
            stage: self.stage,
            name: self.name@,
            version: self.version@,
            lattice: self.lattice@,
            revision: self.revision,
        }
    }
}

/// What adding a lattice does next: an effect, or it is finished with the version of the lattice,
/// with an error that is the answer, or with a failure.
pub enum AddStep {
    Do(AddLattice, Effect<Lattice>),
    Finish(Result<Result<String, String>, String>),
}

/// What an [`AddStep`] says.
#[verifier::ext_equal]
pub enum AddStepView {
    Do(AddLatticeView, EffectView<control::LatticeView>),
    Finish(Result<Result<Seq<char>, Seq<char>>, Seq<char>>),
}

impl View for AddStep {
    type V = AddStepView;

    open spec fn view(&self) -> AddStepView {
        match self {
            AddStep::Do(state, effect) => AddStepView::Do(state@, effect@),
            AddStep::Finish(Ok(Ok(version))) => AddStepView::Finish(Ok(Ok(version@))),
            AddStep::Finish(Ok(Err(e))) => AddStepView::Finish(Ok(Err(e@))),
            AddStep::Finish(Err(e)) => AddStepView::Finish(Err(e@)),
        }
    }
}

/// The outcomes that what is being done in a stage can have.
pub open spec fn add_expects(stage: AddStage, outcome: OutcomeView<control::LatticeView>) -> bool {
    match stage {
        AddStage::DataBucket | AddStage::ConfigBucket | AddStage::Opening | AddStage::Updating =>
            outcome is Done || outcome is Failed,
        AddStage::Writing => outcome is Written || outcome is Failed,
        AddStage::Creating => outcome is Created,
        AddStage::Printing => outcome is Done,
    }
}

/// The last write of adding a lattice: it is created.
pub open spec fn add_update(state: AddLatticeView) -> AddStepView {
    let lattice = in_phase(state.lattice, LatticePhase::Created);
    AddStepView::Do(
        AddLatticeView { stage: AddStage::Updating, lattice, ..state },
        EffectView::Update { key: state.name, lattice, revision: state.revision },
    )
}

/// What the lattice generator is given to complete a lattice.
pub open spec fn context_of(
    api: LatticeWrpcApi,
    lattice: control::LatticeView,
) -> control::ContextView {
    control::ContextView {
        lattice,
        additional_metadata: None,
        operator_key: api.operator_key.deep_view(),
        system_account: api.system_account.deep_view(),
    }
}

/// What adding a lattice does next, given how what was being done went.
pub open spec fn add_next(
    api: LatticeWrpcApi,
    state: AddLatticeView,
    outcome: OutcomeView<control::LatticeView>,
) -> AddStepView {
    match (state.stage, outcome) {
        (_, OutcomeView::Failed(e)) => AddStepView::Finish(Err(e)),
        (AddStage::DataBucket, _) => AddStepView::Do(
            AddLatticeView { stage: AddStage::ConfigBucket, ..state },
            EffectView::CreateBucket { bucket: "CONFIGDATA_"@ + state.name, replicas: 1 },
        ),
        (AddStage::ConfigBucket, _) => AddStepView::Do(
            AddLatticeView { stage: AddStage::Opening, ..state },
            EffectView::OpenBucket { bucket: LATTICE_BUCKET@ },
        ),
        (AddStage::Opening, _) => AddStepView::Do(
            AddLatticeView { stage: AddStage::Writing, ..state },
            EffectView::Put { key: state.name, lattice: state.lattice },
        ),
        (AddStage::Writing, OutcomeView::Written(revision)) => {
            let written = AddLatticeView { revision, ..state };
            if api.component {
                AddStepView::Do(
                    AddLatticeView { stage: AddStage::Creating, ..written },
                    EffectView::Create { context: context_of(api, state.lattice) },
                )
            } else {
                add_update(written)
            }
        },
        (AddStage::Creating, OutcomeView::Created(Err(e))) => AddStepView::Finish(
            Ok(Err("Error invoking component: "@ + e)),
        ),
        (AddStage::Creating, OutcomeView::Created(Ok(response))) => {
            let completed = AddLatticeView { lattice: response.lattice, ..state };
            match response.account {
                Some(account) => AddStepView::Do(
                    AddLatticeView { stage: AddStage::Printing, ..completed },
                    EffectView::Print { line: account.encoded },
                ),
                None => add_update(completed),
            }
        },
        (AddStage::Printing, _) => add_update(state),
        (AddStage::Updating, _) => AddStepView::Finish(Ok(Ok(state.version))),
        _ => AddStepView::Finish(Err(Seq::empty())),
    }
}

/// The first step of adding a lattice.
pub open spec fn add_first(lattice: control::LatticeView) -> AddStepView {
    AddStepView::Do(
        AddLatticeView {
            stage: AddStage::DataBucket,
            name: lattice.metadata.name,
            version: lattice.metadata.version,
            lattice,
            revision: 0,
        },
        EffectView::CreateBucket { bucket: "LATTICEDATA_"@ + lattice.metadata.name, replicas: 1 },
    )
}

impl LatticeWrpcApi {
    /// The service of a configuration: with a lattice generator if one is configured.
    pub fn new(config: &Config, args: &Args) -> (r: LatticeWrpcApi)
        ensures
            r.nats_url@ == args.nats_url@,
            r.component == (config.lattices is Some),
            match config.lattices {
                Some(l) => r.operator_key.deep_view() == Some(l.operator_public_key@)
                    && r.system_account.deep_view() == Some(l.wasmcloud_system_account@),
                None => r.operator_key is None && r.system_account is None,
            },
    {
        let (operator_key, system_account) = config.generator_keys();
        LatticeWrpcApi {
            nats_url: args.nats_url.clone(),
            component: config.lattices.is_some(),
            operator_key,
            system_account,
        }
    }

    /// The service is always ready.
    pub fn health_check(&self) -> (r: Health)
        ensures
            r.ready,
            r.message.deep_view() == Some("OK"@),
    {
        Health { ready: true, message: Some("OK".to_owned()) }
    }

    /// What the lattice generator is given to complete a lattice.
    pub fn generator_context(&self, lattice: Lattice) -> (r: Context)
        ensures
            r@ == context_of(*self, lattice@),
    {
        Context {
            lattice,
            additional_metadata: None,
            operator_key: copy_text(&self.operator_key),
            system_account: copy_text(&self.system_account),
        }
    }

    /// Starts to add a lattice, which needs a name. It gets a new identifier, and a new version if
    /// it has none.
    pub fn add_lattice(&self, lattice: Lattice) -> (r: AddStep)
        ensures
            if lattice.metadata.name@.len() == 0 {
                r@ == AddStepView::Finish(Err("Lattice name is required"@))
            } else {
                exists|version: Seq<char>, uid: Seq<char>|
                    ids::is_ulid(version) && ids::is_uuid(uid) && r@ == add_first(
                        #[trigger] prepared(lattice@, version, uid),
                    )
            },
    {
        if lattice.metadata.name.as_str().is_empty() {
            return AddStep::Finish(Err("Lattice name is required".to_owned()));
        }
        let version = new_ulid();
        let uid = new_uuid();
        let ghost drawn = (version@, uid@);
        let ghost asked = lattice@;
        let lattice = prepare(lattice, version, uid);
        let name = lattice.metadata.name.clone();
        let bucket = concatenate("LATTICEDATA_", name.as_str());
        let version = lattice.metadata.version.clone();
        assert(lattice@ == prepared(asked, drawn.0, drawn.1));
        AddStep::Do(
            AddLattice { stage: AddStage::DataBucket, name, version, lattice, revision: 0 },
            Effect::CreateBucket { bucket, replicas: 1 },
        )
    }

    /// Goes on with adding a lattice, given how what was being done went.
    pub fn add_lattice_next(&self, state: AddLattice, outcome: Outcome<Lattice>) -> (r: AddStep)
        requires
            add_expects(state.stage, outcome@),
        ensures
            r@ == add_next(*self, state@, outcome@),
    {
        let mut state = state;
        match outcome {
            Outcome::Failed(e) => AddStep::Finish(Err(e)),
            Outcome::Written(revision) => {
                state.revision = revision;
                if self.component {
                    state.stage = AddStage::Creating;
                    let context = self.generator_context(state.lattice.clone());
                    AddStep::Do(state, Effect::Create { context })
                } else {
                    Self::update_added(state)
                }
            },
            Outcome::Created(Err(e)) => AddStep::Finish(
                Ok(Err(concatenate("Error invoking component: ", e.as_str()))),
            ),
            Outcome::Created(Ok(response)) => {
                state.lattice = response.lattice;
                match response.account {
                    Some(account) => {
                        state.stage = AddStage::Printing;
                        AddStep::Do(state, Effect::Print { line: account.encoded })
                    },
                    None => Self::update_added(state),
                }
            },
            _ => match state.stage {
                AddStage::DataBucket => {
                    state.stage = AddStage::ConfigBucket;
                    let bucket = concatenate("CONFIGDATA_", state.name.as_str());
                    AddStep::Do(state, Effect::CreateBucket { bucket, replicas: 1 })
                },
                AddStage::ConfigBucket => {
                    state.stage = AddStage::Opening;
                    AddStep::Do(state, Effect::OpenBucket { bucket: LATTICE_BUCKET.to_owned() })
                },
                AddStage::Opening => {
                    state.stage = AddStage::Writing;
                    let effect = Effect::Put {
                        key: state.name.clone(),
                        lattice: state.lattice.clone(),
                    };
                    AddStep::Do(state, effect)
                },
                AddStage::Printing => Self::update_added(state),
                _ => AddStep::Finish(Ok(Ok(state.version))),
            },
        }
    }

    /// The last write of adding a lattice.
    fn update_added(state: AddLattice) -> (r: AddStep)
        ensures
            r@ == add_update(state@),
    {
        let mut state = state;
        state.stage = AddStage::Updating;
        state.lattice.status.phase = LatticePhase::Created;
        let effect = Effect::Update {
            key: state.name.clone(),
            lattice: state.lattice.clone(),
            revision: state.revision,
        };
        AddStep::Do(state, effect)
    }
}

/// The fields of a lattice that an update can change.
pub open spec fn is_field(path: Seq<char>) -> bool {
    path == "account"@ || path == "description"@ || path == "signing_keys"@ || path == "deletable"@
}

/// Whether an update with these paths changes a lattice.
pub open spec fn modifies(paths: Seq<Seq<char>>) -> bool {
    exists|i: int| 0 <= i < paths.len() && is_field(#[trigger] paths[i])
}

/// `lattice` with the fields that `paths` names as `update` has them; a field `deletable` that the
/// update does not have is false. Whatever else `paths` names is ignored.
pub open spec fn updated(
    lattice: control::LatticeView,
    update: control::LatticeUpdateView,
    paths: Seq<Seq<char>>,
) -> control::LatticeView {
    control::LatticeView {
        account: if paths.contains("account"@) {
            update.account
        } else {
            lattice.account
        },
        description: if paths.contains("description"@) {
            update.description
        } else {
            lattice.description
        },
        signing_keys: if paths.contains("signing_keys"@) {
            update.signing_keys
        } else {
            lattice.signing_keys
        },
        deletable: if paths.contains("deletable"@) {
            update.deletable == Some(true)
        } else {
            lattice.deletable
        },
        ..lattice
    }
}

/// `lattice` with the version `version`.
pub open spec fn with_version(
    lattice: control::LatticeView,
    version: Seq<char>,
) -> control::LatticeView {
    control::LatticeView {
        metadata: control::MetadataView { version, ..lattice.metadata },
        ..lattice
    }
}

/// Changes the fields of a lattice that `paths` names; the result is whether there are any.
pub fn apply_update(lattice: &mut Lattice, update: &LatticeUpdate, paths: &Vec<String>) -> (r: bool)
    ensures
        final(lattice)@ == updated(old(lattice)@, update@, paths.deep_view()),
        r == modifies(paths.deep_view()),
{
    let ghost start = lattice@;
    let ghost all = paths.deep_view();
    let mut modified = false;
    let mut i: usize = 0;
    proof {
        assert(all.take(0) =~= Seq::<Seq<char>>::empty());
        reveal_strlit("account");
        reveal_strlit("description");
        reveal_strlit("signing_keys");
        reveal_strlit("deletable");
        assert("account"@.len() == 7 && "description"@.len() == 11 && "signing_keys"@.len() == 12
            && "deletable"@.len() == 9);
    }
    while i < paths.len()
        invariant
            i <= paths@.len(),
            all == paths.deep_view(),
            lattice@ == updated(start, update@, all.take(i as int)),
            modified == modifies(all.take(i as int)),
            "account"@.len() == 7,
            "description"@.len() == 11,
            "signing_keys"@.len() == 12,
            "deletable"@.len() == 9,
        decreases paths@.len() - i,
    {
        let path = paths[i].as_str();
        let ghost before = all.take(i as int);
        let ghost after = all.take(i + 1);
        proof {
            assert(all[i as int] == path@);
            assert(after =~= before.push(path@));
            assert forall|field: Seq<char>| #[trigger]
                after.contains(field) == (before.contains(field) || field == path@) by {
                if before.contains(field) {
                    let j = choose|j: int| 0 <= j < before.len() && before[j] == field;
                    assert(after[j] == field);
                }
                if field == path@ {
                    assert(after[i as int] == field);
                }
            }
            assert(modifies(after) == (modifies(before) || is_field(path@))) by {
                if modifies(before) {
                    let j = choose|j: int| 0 <= j < before.len() && is_field(#[trigger] before[j]);
                    assert(is_field(after[j]));
                }
                if is_field(path@) {
                    assert(is_field(after[i as int]));
                }
                if modifies(after) && !is_field(path@) {
                    let j = choose|j: int| 0 <= j < after.len() && is_field(#[trigger] after[j]);
                    assert(is_field(before[j]));
                }
            }
        }
        if same(path, "account") {
            lattice.account = copy_text(&update.account);
            modified = true;
        } else if same(path, "description") {
            lattice.description = copy_text(&update.description);
            modified = true;
        } else if same(path, "signing_keys") {
            lattice.signing_keys = copy_optional_list(&update.signing_keys);
            modified = true;
        } else if same(path, "deletable") {
            lattice.deletable = match update.deletable {
                Some(deletable) => deletable,
                None => false,
            };
            modified = true;
        }
        i = i + 1;
        assert(lattice@ =~= updated(start, update@, after));
    }
    assert(all.take(paths@.len() as int) =~= all);
    modified
}

/// How far changing a lattice has come: what is being done.
#[derive(Clone, Copy, Debug, PartialEq, Eq, Structural)]
pub enum UpdateStage {
    Opening,
    Reading,
    Writing,
}

/// Changing a lattice.
#[derive(Debug, PartialEq, Eq)]
pub struct UpdateLattice {
    pub stage: UpdateStage,
    pub update: LatticeUpdate,
    pub paths: Vec<String>,
    /// The version of the lattice that is being written.
    pub version: String,
}

/// What an [`UpdateLattice`] says.
#[verifier::ext_equal]
pub struct UpdateLatticeView {
    pub stage: UpdateStage,
    pub update: control::LatticeUpdateView,
    pub paths: Seq<Seq<char>>,
    pub version: Seq<char>,
}

impl View for UpdateLattice {
    type V = UpdateLatticeView;

    open spec fn view(&self) -> UpdateLatticeView {
        UpdateLatticeView {
            stage: self.stage,
            update: self.update@,
            paths: self.paths.deep_view(),
            version: self.version@,
        }
    }
}

/// What changing a lattice does next: an effect, or it is finished with the version of the
/// lattice or with a failure.
pub enum UpdateStep {
    Do(UpdateLattice, Effect<Lattice>),
    Finish(Result<String, String>),
}

/// What an [`UpdateStep`] says.
#[verifier::ext_equal]
pub enum UpdateStepView {
    Do(UpdateLatticeView, EffectView<control::LatticeView>),
    Finish(Result<Seq<char>, Seq<char>>),
}

impl View for UpdateStep {
    type V = UpdateStepView;

    open spec fn view(&self) -> UpdateStepView {
        match self {
            UpdateStep::Do(state, effect) => UpdateStepView::Do(state@, effect@),
            UpdateStep::Finish(Ok(version)) => UpdateStepView::Finish(Ok(version@)),
            UpdateStep::Finish(Err(e)) => UpdateStepView::Finish(Err(e@)),
        }
    }
}

/// The outcomes that what is being done in a stage can have.
pub open spec fn update_expects(
    stage: UpdateStage,
    outcome: OutcomeView<control::LatticeView>,
) -> bool {
    match stage {
        UpdateStage::Opening => outcome is Done || outcome is Failed,
        UpdateStage::Reading => outcome is Found || outcome is Unreadable || outcome is Failed,
        UpdateStage::Writing => outcome is Written || outcome is Failed,
    }
}

/// What changing a lattice does next, given how what was being done went, with `fresh` for a new
/// version.
pub open spec fn update_next(
    state: UpdateLatticeView,
    outcome: OutcomeView<control::LatticeView>,
    fresh: Seq<char>,
) -> UpdateStepView {
    match (state.stage, outcome) {
        (UpdateStage::Reading, OutcomeView::Failed(_)) => UpdateStepView::Finish(
            Err("Failed to get lattice"@),
        ),
        (_, OutcomeView::Failed(e)) => UpdateStepView::Finish(Err(e)),
        (UpdateStage::Opening, _) => UpdateStepView::Do(
            UpdateLatticeView { stage: UpdateStage::Reading, ..state },
            EffectView::Get { key: state.update.lattice },
        ),
        (UpdateStage::Reading, OutcomeView::Found(Some(lattice))) => {
            let changed = updated(lattice, state.update, state.paths);
            if modifies(state.paths) {
                UpdateStepView::Do(
                    UpdateLatticeView { stage: UpdateStage::Writing, version: fresh, ..state },
                    EffectView::Put {
                        key: lattice.metadata.name,
                        lattice: with_version(changed, fresh),
                    },
                )
            } else {
                UpdateStepView::Finish(Ok(lattice.metadata.version))
            }
        },
        (UpdateStage::Reading, OutcomeView::Unreadable(e)) => UpdateStepView::Finish(Err(e)),
        (UpdateStage::Reading, _) => UpdateStepView::Finish(Err("Lattice not found"@)),
        (UpdateStage::Writing, _) => UpdateStepView::Finish(Ok(state.version)),
    }
}

/// The first step of changing a lattice.
pub open spec fn update_first(
    update: control::LatticeUpdateView,
    paths: Seq<Seq<char>>,
) -> UpdateStepView {
    if paths.len() == 0 {
        UpdateStepView::Finish(Err("No paths provided for update"@))
    } else {
        UpdateStepView::Do(
            UpdateLatticeView { stage: UpdateStage::Opening, update, paths, version: Seq::empty() },
            EffectView::OpenBucket { bucket: LATTICE_BUCKET@ },
        )
    }
}

impl LatticeWrpcApi {
    /// Starts to change a lattice, which needs paths of fields to be changed.
    pub fn update_lattice(&self, update: LatticeUpdate, paths: Vec<String>) -> (r: UpdateStep)
        ensures
            r@ == update_first(update@, paths.deep_view()),
    {
        if paths.len() == 0 {
            return UpdateStep::Finish(Err("No paths provided for update".to_owned()));
        }
        UpdateStep::Do(
            UpdateLattice { stage: UpdateStage::Opening, update, paths, version: String::new() },
            Effect::OpenBucket { bucket: LATTICE_BUCKET.to_owned() },
        )
    }

    /// Goes on with changing a lattice, given how what was being done went. A lattice that is
    /// changed gets a new version.
    pub fn update_lattice_next(&self, state: UpdateLattice, outcome: Outcome<Lattice>) -> (r:
        UpdateStep)
        requires
            update_expects(state.stage, outcome@),
        ensures
            exists|fresh: Seq<char>|
                ids::is_ulid(fresh) && r@ == #[trigger] update_next(state@, outcome@, fresh),
    {
        let version = new_ulid();
        let ghost fresh = version@;
        let r = self.update_lattice_with(state, outcome, version);
        assert(ids::is_ulid(fresh) && r@ == update_next(state@, outcome@, fresh));
        r
    }

    /// Goes on with changing a lattice, with `version` for a new version.
    pub fn update_lattice_with(
        &self,
        state: UpdateLattice,
        outcome: Outcome<Lattice>,
        version: String,
    ) -> (r: UpdateStep)
        requires
            update_expects(state.stage, outcome@),
        ensures
            r@ == update_next(state@, outcome@, version@),
    {
        let mut state = state;
        match state.stage {
            UpdateStage::Opening => match outcome {
                Outcome::Failed(e) => UpdateStep::Finish(Err(e)),
                _ => {
                    state.stage = UpdateStage::Reading;
                    let key = state.update.lattice.clone();
                    UpdateStep::Do(state, Effect::Get { key })
                },
            },
            UpdateStage::Reading => match outcome {
                Outcome::Found(Some(lattice)) => {
                    let mut lattice = lattice;
                    if apply_update(&mut lattice, &state.update, &state.paths) {
                        state.stage = UpdateStage::Writing;
                        state.version = version.clone();
                        lattice.metadata.version = version;
                        let key = lattice.metadata.name.clone();
                        UpdateStep::Do(state, Effect::Put { key, lattice })
                    } else {
                        UpdateStep::Finish(Ok(lattice.metadata.version))
                    }
                },
                Outcome::Unreadable(e) => UpdateStep::Finish(Err(e)),
                Outcome::Failed(_) => UpdateStep::Finish(Err("Failed to get lattice".to_owned())),
                _ => UpdateStep::Finish(Err("Lattice not found".to_owned())),
            },
            UpdateStage::Writing => match outcome {
                Outcome::Failed(e) => UpdateStep::Finish(Err(e)),
                _ => UpdateStep::Finish(Ok(state.version)),
            },
        }
    }
}

/// What a lattice without applications answers to the question for them: an empty list.
pub open spec fn no_applications() -> Seq<u8> {
    seq![0x5bu8, 0x5du8]
}

/// Whether an answer is that of a lattice without applications.
pub fn is_empty_list(payload: &Vec<u8>) -> (r: bool)
    ensures
        r == (payload@ == no_applications()),
{
    let r = payload.len() == 2 && payload[0] == 0x5bu8 && payload[1] == 0x5du8;
    assert(r ==> payload@ =~= no_applications());
    r
}

/// The subject on which a lattice is asked for its applications.
pub open spec fn applications_subject(lattice: Seq<char>) -> Seq<char> {
    "wadm.api."@ + lattice + ".model.list"@
}

/// The subject on which a lattice is asked for its applications.
pub(crate) fn model_list_subject(lattice: &str) -> (r: String)
    ensures
        r@ == applications_subject(lattice@),
{
    concatenate(concatenate("wadm.api.", lattice).as_str(), ".model.list")
}

/// How far deleting a lattice has come: what is being done.
#[derive(Clone, Copy, Debug, PartialEq, Eq, Structural)]
pub enum DeleteStage {
    Opening,
    Reading,
    Asking,
    Writing,
    Deleting,
}

/// Deleting a lattice.
#[derive(Debug, PartialEq, Eq)]
pub struct DeleteLattice {
    pub stage: DeleteStage,
    pub name: String,
    /// The lattice, once it is read.
    pub lattice: Option<Lattice>,
}

/// What a [`DeleteLattice`] says.
#[verifier::ext_equal]
pub struct DeleteLatticeView {
    pub stage: DeleteStage,
    pub name: Seq<char>,
    pub lattice: Option<control::LatticeView>,
}

impl View for DeleteLattice {
    type V = DeleteLatticeView;

    open spec fn view(&self) -> DeleteLatticeView {
        DeleteLatticeView {
            stage: self.stage,
            name: self.name@,
            lattice: self.lattice.deep_view(),
        }
    }
}

/// What deleting a lattice does next: an effect, or it is finished with the lattice that was
/// deleted or with a failure.
pub enum DeleteStep {
    Do(DeleteLattice, Effect<Lattice>),
    Finish(Result<Lattice, String>),
}

/// What a [`DeleteStep`] says.
#[verifier::ext_equal]
pub enum DeleteStepView {
    Do(DeleteLatticeView, EffectView<control::LatticeView>),
    Finish(Result<control::LatticeView, Seq<char>>),
}

impl View for DeleteStep {
    type V = DeleteStepView;

    open spec fn view(&self) -> DeleteStepView {
        match self {
            DeleteStep::Do(state, effect) => DeleteStepView::Do(state@, effect@),
            DeleteStep::Finish(Ok(lattice)) => DeleteStepView::Finish(Ok(lattice@)),
            DeleteStep::Finish(Err(e)) => DeleteStepView::Finish(Err(e@)),
        }
    }
}

/// The lattice is known as soon as it has been read, and the outcome is one that what is being
/// done can have.
pub open spec fn delete_expects(
    state: DeleteLatticeView,
    outcome: OutcomeView<control::LatticeView>,
) -> bool {
    match state.stage {
        DeleteStage::Opening => outcome is Done || outcome is Failed,
        DeleteStage::Reading => outcome is Found || outcome is Unreadable || outcome is Failed,
        DeleteStage::Asking => state.lattice is Some && (outcome is Reply || outcome is Failed),
        DeleteStage::Writing => state.lattice is Some && (outcome is Written || outcome is Failed),
        DeleteStage::Deleting => state.lattice is Some && (outcome is Done || outcome is Failed),
    }
}

/// What deleting a lattice does next, given how what was being done went.
pub open spec fn delete_next(
    state: DeleteLatticeView,
    outcome: OutcomeView<control::LatticeView>,
) -> DeleteStepView {
    let lattice = state.lattice->Some_0;
    match (state.stage, outcome) {
        (DeleteStage::Reading, OutcomeView::Failed(_)) => DeleteStepView::Finish(
            Err("Failed to get lattice"@),
        ),
        (_, OutcomeView::Failed(e)) => DeleteStepView::Finish(Err(e)),
        (DeleteStage::Opening, _) => DeleteStepView::Do(
            DeleteLatticeView { stage: DeleteStage::Reading, ..state },
            EffectView::Get { key: state.name },
        ),
        (DeleteStage::Reading, OutcomeView::Found(Some(found))) => DeleteStepView::Do(
            DeleteLatticeView { stage: DeleteStage::Asking, lattice: Some(found), ..state },
            EffectView::Request {
                subject: applications_subject(state.name),
                payload: Seq::empty(),
            },
        ),
        (DeleteStage::Reading, OutcomeView::Unreadable(e)) => DeleteStepView::Finish(Err(e)),
        (DeleteStage::Reading, _) => DeleteStepView::Finish(Err("Lattice not found"@)),
        (DeleteStage::Asking, OutcomeView::Reply(payload)) => if payload == no_applications() {
            let deleting = in_phase(lattice, LatticePhase::Deleting);
            DeleteStepView::Do(
                DeleteLatticeView { stage: DeleteStage::Writing, lattice: Some(deleting), ..state },
                EffectView::Put { key: lattice.metadata.name, lattice: deleting },
            )
        } else {
            DeleteStepView::Finish(
                Err(
                    "Lattice has applications. Delete them first before deleting the lattice"@,
                ),
            )
        },
        (DeleteStage::Writing, _) => DeleteStepView::Do(
            DeleteLatticeView { stage: DeleteStage::Deleting, ..state },
            EffectView::Delete { key: lattice.metadata.name },
        ),
        _ => DeleteStepView::Finish(Ok(lattice)),
    }
}

/// The first step of deleting a lattice.
pub open spec fn delete_first(name: Seq<char>) -> DeleteStepView {
    DeleteStepView::Do(
        DeleteLatticeView { stage: DeleteStage::Opening, name, lattice: None },
        EffectView::OpenBucket { bucket: LATTICE_BUCKET@ },
    )
}

impl LatticeWrpcApi {
    /// Starts to delete a lattice.
    pub fn delete_lattice(&self, name: String) -> (r: DeleteStep)
        ensures
            r@ == delete_first(name@),
    {
        DeleteStep::Do(
            DeleteLattice { stage: DeleteStage::Opening, name, lattice: None },
            Effect::OpenBucket { bucket: LATTICE_BUCKET.to_owned() },
        )
    }

    /// Goes on with deleting a lattice, given how what was being done went. A lattice that has
    /// applications is not deleted.
    pub fn delete_lattice_next(&self, state: DeleteLattice, outcome: Outcome<Lattice>) -> (r:
        DeleteStep)
        requires
            delete_expects(state@, outcome@),
        ensures
            r@ == delete_next(state@, outcome@),
    {
        let mut state = state;
        match (state.stage, outcome) {
            (DeleteStage::Reading, Outcome::Failed(_)) => DeleteStep::Finish(
                Err("Failed to get lattice".to_owned()),
            ),
            (_, Outcome::Failed(e)) => DeleteStep::Finish(Err(e)),
            (DeleteStage::Opening, _) => {
                state.stage = DeleteStage::Reading;
                let key = state.name.clone();
                DeleteStep::Do(state, Effect::Get { key })
            },
            (DeleteStage::Reading, Outcome::Found(Some(lattice))) => {
                state.stage = DeleteStage::Asking;
                state.lattice = Some(lattice);
                let subject = model_list_subject(state.name.as_str());
                let payload: Vec<u8> = Vec::new();
                DeleteStep::Do(state, Effect::Request { subject, payload })
            },
            (DeleteStage::Reading, Outcome::Unreadable(e)) => DeleteStep::Finish(Err(e)),
            (DeleteStage::Reading, _) => DeleteStep::Finish(Err("Lattice not found".to_owned())),
            (stage, outcome) => {
                let mut lattice = match state.lattice {
                    Some(lattice) => lattice,
                    None => return DeleteStep::Finish(Err("Lattice not found".to_owned())),
                };
                match (stage, outcome) {
                    (DeleteStage::Asking, Outcome::Reply(payload)) => {
                        if is_empty_list(&payload) {
                            lattice.status.phase = LatticePhase::Deleting;
                            let effect = Effect::Put {
                                key: lattice.metadata.name.clone(),
                                lattice: lattice.clone(),
                            };
                            DeleteStep::Do(
                                DeleteLattice {
                                    stage: DeleteStage::Writing,
                                    name: state.name,
                                    lattice: Some(lattice),
                                },
                                effect,
                            )
                        } else {
                            DeleteStep::Finish(
                                Err(
                                    "Lattice has applications. Delete them first before deleting the lattice".to_owned(),
                                ),
                            )
                        }
                    },
                    (DeleteStage::Writing, _) => {
                        let key = lattice.metadata.name.clone();
                        DeleteStep::Do(
                            DeleteLattice {
                                stage: DeleteStage::Deleting,
                                name: state.name,
                                lattice: Some(lattice),
                            },
                            Effect::Delete { key },
                        )
                    },
                    _ => DeleteStep::Finish(Ok(lattice)),
                }
            },
        }
    }
}

/// Reading lattices, of which the first so many are read.
#[derive(Debug, PartialEq, Eq)]
pub struct GetLattices {
    /// Whether the bucket is open.
    pub open: bool,
    pub names: Vec<String>,
    pub lattices: Vec<Lattice>,
}

/// What a [`GetLattices`] says.
#[verifier::ext_equal]
pub struct GetLatticesView {
    pub open: bool,
    pub names: Seq<Seq<char>>,
    pub lattices: Seq<control::LatticeView>,
}

impl View for GetLattices {
    type V = GetLatticesView;

    open spec fn view(&self) -> GetLatticesView {
        GetLatticesView {
            open: self.open,
            names: self.names.deep_view(),
            lattices: self.lattices.deep_view(),
        }
    }
}

/// What reading lattices does next: an effect, or it is finished with the lattices or with a
/// failure.
pub enum GetStep {
    Do(GetLattices, Effect<Lattice>),
    Finish(Result<Vec<Lattice>, String>),
}

/// What a [`GetStep`] says.
#[verifier::ext_equal]
pub enum GetStepView {
    Do(GetLatticesView, EffectView<control::LatticeView>),
    Finish(Result<Seq<control::LatticeView>, Seq<char>>),
}

impl View for GetStep {
    type V = GetStepView;

    open spec fn view(&self) -> GetStepView {
        match self {
            GetStep::Do(state, effect) => GetStepView::Do(state@, effect@),
            GetStep::Finish(Ok(lattices)) => GetStepView::Finish(Ok(lattices.deep_view())),
            GetStep::Finish(Err(e)) => GetStepView::Finish(Err(e@)),
        }
    }
}

/// The outcome is one that what is being done can have; there is a lattice to be read once the
/// bucket is open.
pub open spec fn get_expects(
    state: GetLatticesView,
    outcome: OutcomeView<control::LatticeView>,
) -> bool {
    if state.open {
        state.lattices.len() < state.names.len() && (outcome is Found || outcome is Unreadable
            || outcome is Failed)
    } else {
        state.lattices.len() == 0 && (outcome is Done || outcome is Failed)
    }
}

/// Reads the next lattice, or finishes with all of them.
pub open spec fn get_more(state: GetLatticesView) -> GetStepView {
    if state.lattices.len() < state.names.len() {
        GetStepView::Do(
            GetLatticesView { open: true, ..state },
            EffectView::Get { key: state.names[state.lattices.len() as int] },
        )
    } else {
        GetStepView::Finish(Ok(state.lattices))
    }
}

/// What reading lattices does next, given how what was being done went: the first lattice that
/// cannot be read ends it.
pub open spec fn get_next(
    state: GetLatticesView,
    outcome: OutcomeView<control::LatticeView>,
) -> GetStepView {
    if !state.open {
        match outcome {
            OutcomeView::Failed(e) => GetStepView::Finish(Err(e)),
            _ => get_more(state),
        }
    } else {
        match outcome {
            OutcomeView::Failed(e) => GetStepView::Finish(
                Err(
                    "Failed to get lattice "@ + state.names[state.lattices.len() as int] + ", "@
                        + e,
                ),
            ),
            OutcomeView::Unreadable(e) => GetStepView::Finish(Err(e)),
            OutcomeView::Found(Some(lattice)) => get_more(
                GetLatticesView { lattices: state.lattices.push(lattice), ..state },
            ),
            _ => GetStepView::Finish(Err("Lattice not found"@)),
        }
    }
}

/// The first step of reading lattices.
pub open spec fn get_first(names: Seq<Seq<char>>) -> GetStepView {
    GetStepView::Do(
        GetLatticesView { open: false, names, lattices: Seq::empty() },
        EffectView::OpenBucket { bucket: LATTICE_BUCKET@ },
    )
}

impl LatticeWrpcApi {
    /// Starts to read lattices.
    pub fn get_lattices(&self, names: Vec<String>) -> (r: GetStep)
        ensures
            r@ == get_first(names.deep_view()),
    {
        let lattices: Vec<Lattice> = Vec::new();
        assert(lattices.deep_view() =~= Seq::empty());
        GetStep::Do(
            GetLattices { open: false, names, lattices },
            Effect::OpenBucket { bucket: LATTICE_BUCKET.to_owned() },
        )
    }

    /// Goes on with reading lattices, given how what was being done went.
    pub fn get_lattices_next(&self, state: GetLattices, outcome: Outcome<Lattice>) -> (r: GetStep)
        requires
            get_expects(state@, outcome@),
        ensures
            r@ == get_next(state@, outcome@),
    {
        let mut state = state;
        let ghost before = state@;
        match outcome {
            Outcome::Failed(e) => {
                if state.open {
                    let n: usize = state.lattices.len();
                    assert(state.names.deep_view()[n as int] == state.names@[n as int]@);
                    let text = concatenate("Failed to get lattice ", state.names[n].as_str());
                    let text = concatenate(concatenate(text.as_str(), ", ").as_str(), e.as_str());
                    GetStep::Finish(Err(text))
                } else {
                    GetStep::Finish(Err(e))
                }
            },
            Outcome::Unreadable(e) => GetStep::Finish(Err(e)),
            Outcome::Found(Some(lattice)) => {
                state.lattices.push(lattice);
                assert(state.lattices.deep_view() =~= before.lattices.push(lattice@));
                Self::get_more(state)
            },
            Outcome::Found(None) => GetStep::Finish(Err("Lattice not found".to_owned())),
            _ => Self::get_more(state),
        }
    }

    /// Reads the next lattice, or finishes with all of them.
    fn get_more(state: GetLattices) -> (r: GetStep)
        ensures
            r@ == get_more(state@),
    {
        let mut state = state;
        let n: usize = state.lattices.len();
        if n < state.names.len() {
            state.open = true;
            let key = state.names[n].clone();
            assert(state.names.deep_view()[n as int] == state.names@[n as int]@);
            GetStep::Do(state, Effect::Get { key })
        } else {
            GetStep::Finish(Ok(state.lattices))
        }
    }

    /// The names of the lattices, given the keys of their bucket as they were read: the first one
    /// that could not be read is a failure.
    pub fn list_lattices(&self, keys: Vec<Result<String, String>>) -> (r: Result<
        Vec<String>,
        String,
    >)
        ensures
            match r {
                Ok(names) => {
                    &&& names@.len() == keys@.len()
                    &&& forall|i: int|
                        0 <= i < keys@.len() ==> (#[trigger] keys@[i] matches Ok(k) && k@
                            == names@[i]@)
                },
                Err(text) => exists|i: int|
                    {
                        &&& 0 <= i < keys@.len()
                        &&& (#[trigger] keys@[i] matches Err(e) && text@ == "Error getting key: "@
                            + e@)
                        &&& forall|j: int| 0 <= j < i ==> (#[trigger] keys@[j]) is Ok
                    },
            },
    {
        let mut names: Vec<String> = Vec::new();
        let mut i: usize = 0;
        while i < keys.len()
            invariant
                i <= keys@.len(),
                names@.len() == i,
                forall|j: int|
                    0 <= j < i ==> (#[trigger] keys@[j] matches Ok(k) && k@ == names@[j]@),
            decreases keys@.len() - i,
        {
            match &keys[i] {
                Ok(key) => names.push(key.clone()),
                Err(e) => {
                    assert(keys@[i as int] is Err);
                    return Err(concatenate("Error getting key: ", e.as_str()));
                },
            }
            i = i + 1;
        }
        Ok(names)
    }

    /// The keys to be watched: those of the given lattices, or every key.
    pub fn watch_lattices(&self, lattices: Option<Vec<String>>) -> (r: Vec<String>)
        ensures
            r.deep_view() == match lattices {
                Some(names) => names.deep_view(),
                None => seq![">"@],
            },
    {
        match lattices {
            Some(names) => names,
            None => {
                let all: Vec<String> = vec![">".to_owned()];
                assert(all.deep_view() =~= seq![">"@]);
                all
            },
        }
    }

    /// What a watcher is sent for an entry of the bucket: the lattice in it, if it can be read.
    pub fn watched(&self, entry: Result<Lattice, String>) -> (r: Option<Vec<Lattice>>)
        ensures
            match entry {
                Ok(lattice) => r matches Some(v) && v@ == seq![lattice],
                Err(_) => r is None,
            },
    {
        match entry {
            Ok(lattice) => {
                let v: Vec<Lattice> = vec![lattice];
                assert(v@ =~= seq![lattice]);
                Some(v)
            },
            Err(_) => None,
        }
    }

    /// The lattice that a subject is about: its fourth token.
    pub fn lattice_from_subject(&self, subject: &str) -> (r: Result<String, String>)
        ensures
            ({
                let tokens = text::split_on(subject@, '.');
                if tokens.len() < 4 {
                    r matches Err(e) && e@ == "Invalid subject"@
                } else {
                    r matches Ok(name) && name@ == tokens[3]
                }
            }),
    {
        let tokens = split(subject, '.');
        assert(tokens.deep_view().len() == tokens@.len());
        if tokens.len() < 4 {
            return Err("Invalid subject".to_owned());
        }
        assert(tokens.deep_view()[3] == tokens@[3]@);
        Ok(tokens[3].clone())
    }
}

/// What the lattice generator has made of a lattice, given how the call of it went and what it
/// returned.
pub fn created(result: Result<Result<CreateLatticeResponse, String>, String>) -> (r: Result<
    CreateLatticeResponse,
    String,
>)
    ensures
        match result {
            Ok(Ok(response)) => r matches Ok(l) && l == response,
            Ok(Err(e)) => r matches Err(text) && text@ == "Failed to create lattice: "@ + e@,
            Err(e) => r matches Err(text) && text@ == e@,
        },
{
    match result {
        Ok(Ok(response)) => Ok(response),
        Ok(Err(e)) => Err(concatenate("Failed to create lattice: ", e.as_str())),
        Err(e) => Err(e),
    }
}

} // verus!
