//! The lattice service on plain messages with protobuf contents.
//!
//! A message is routed by its subject and its content type. Each operation that touches the store
//! is a machine: it names an [`Effect`] to be performed and takes the [`Outcome`] of it, until it
//! has a result.
use async_nats::HeaderMap;
use crate::bindings;
use crate::bindings::{component_lattice, proto_lattice};
use crate::config::{Args, Config};
use crate::control;
use crate::control::Context;
use crate::effects::{Effect, EffectView, Outcome, OutcomeView};
use crate::headers;
use crate::headers::{get_header, single_header};
use crate::ids;
use crate::ids::{new_ulid, new_uuid};
use crate::labels::Labels;
use crate::lattice_wrpc;
use crate::lattice_wrpc::{is_empty_list, model_list_subject};
use crate::proto;
use crate::proto::{Lattice, LatticePhase, LatticeSpec, LatticeStatus, LatticeUpdate, Metadata};
use crate::text;
use crate::text::{concatenate, copy_list, copy_text, same, split};
use vstd::prelude::*;
use vstd::string::*;

verus! {

/// The content type of protobuf messages.
pub const MIME_TYPE: &'static str = "application/x-protobuf";

/// The subject of the service.
pub const LATTICE_SUBJECT: &'static str = "wasmcloud.lattice.v1alpha1_proto";

/// The bucket of the lattices.
pub const LATTICE_BUCKET: &'static str = "WASMCLOUD_LATTICES_proto";

/// The object store of the components.
pub const OBJ_BUCKET: &'static str = "WASMCLOUD_OBJECTS";

/// The header with the content type.
pub const CONTENT_TYPE: &'static str = "Content-Type";

/// Headers that say that a message is a protobuf message.
pub fn content_type_headers() -> (r: HeaderMap)
    ensures
        (headers::header_values(r) == Map::<Seq<char>, Seq<Seq<char>>>::empty().insert(
            CONTENT_TYPE@,
            seq![MIME_TYPE@],
        )),
        headers::first_value(r, CONTENT_TYPE@) == Some(MIME_TYPE@),
{
    single_header(CONTENT_TYPE, MIME_TYPE)
}

/// An operation on lattices.
#[derive(Debug, PartialEq, Eq)]
pub enum Operation {
    Add(String),
    Update(String),
    Delete(String),
    Get,
    Watch,
    /// One that there is not.
    Invalid(String),
}

/// What an [`Operation`] says.
#[verifier::ext_equal]
pub enum OperationView {
    Add(Seq<char>),
    Update(Seq<char>),
    Delete(Seq<char>),
    Get,
    Watch,
    Invalid(Seq<char>),
}

impl View for Operation {
    type V = OperationView;

    open spec fn view(&self) -> OperationView {
        match self {
            Operation::Add(name) => OperationView::Add(name@),
            Operation::Update(name) => OperationView::Update(name@),
            Operation::Delete(name) => OperationView::Delete(name@),
            Operation::Get => OperationView::Get,
            Operation::Watch => OperationView::Watch,
            Operation::Invalid(name) => OperationView::Invalid(name@),
        }
    }
}

/// Where a message goes.
#[derive(Debug, PartialEq, Eq)]
pub enum Route {
    /// The operation needs a lattice, and the subject names none.
    NoLattice,
    Operation(Operation),
}

/// What a [`Route`] says.
#[verifier::ext_equal]
pub enum RouteView {
    NoLattice,
    Operation(OperationView),
}

impl View for Route {
    type V = RouteView;

    open spec fn view(&self) -> RouteView {
        match self {
            Route::NoLattice => RouteView::NoLattice,
            Route::Operation(operation) => RouteView::Operation(operation@),
        }
    }
}

/// The text that answers a message whose operation needs a lattice but whose subject names none.
pub const NO_LATTICE: &'static str = "No lattice specified";

/// The lattice that a subject is about: its fifth token.
pub open spec fn lattice_of(subject: Seq<char>) -> Option<Seq<char>> {
    let tokens = text::split_on(subject, '.');
    if tokens.len() < 5 {
        None
    } else {
        Some(tokens[4])
    }
}

/// The operation that a subject asks for: its fourth token.
pub open spec fn operation_of(subject: Seq<char>) -> Seq<char> {
    text::split_on(subject, '.')[3]
}

/// Where a message with this subject goes.
pub open spec fn route_of(subject: Seq<char>) -> RouteView {
    let operation = operation_of(subject);
    match lattice_of(subject) {
        None => if operation == "watch"@ {
            RouteView::Operation(OperationView::Watch)
        } else {
            RouteView::NoLattice
        },
        Some(lattice) => RouteView::Operation(
            if operation == "add"@ {
                OperationView::Add(lattice)
            } else if operation == "update"@ {
                OperationView::Update(lattice)
            } else if operation == "delete"@ {
                OperationView::Delete(lattice)
            } else if operation == "get"@ {
                OperationView::Get
            } else if operation == "watch"@ {
                OperationView::Watch
            } else {
                OperationView::Invalid(operation)
            },
        ),
    }
}

/// What is wrong with the content type of a message, if anything is.
pub open spec fn content_error(headers: Option<&HeaderMap>) -> Option<Seq<char>> {
    match headers {
        None => Some("No headers -- content-type header is missing"@),
        Some(h) => match headers::first_value(*h, CONTENT_TYPE@) {
            None => Some("No content type header"@),
            Some(content_type) => if content_type == MIME_TYPE@ {
                None
            } else {
                Some("Invalid content type: "@ + content_type)
            },
        },
    }
}

/// What is sent to the one who asked.
pub enum Reply {
    Nothing,
    Message(HeaderMap, Vec<u8>),
    Text(String),
}

/// The lattice service on plain messages.
#[derive(Debug, PartialEq, Eq)]
pub struct LatticeProtoApi {
    pub nats_url: String,
    /// Whether there is a lattice generator.
    pub component: bool,
    pub operator_key: Option<String>,
    pub system_account: Option<String>,
}

impl LatticeProtoApi {
    /// The service of a configuration: with a lattice generator if one is configured.
    pub fn new(config: &Config, args: &Args) -> (r: LatticeProtoApi)
        ensures
            r.nats_url@ == args.nats_url@,
            r.component == (config.lattices is Some),
            match config.lattices {
                Some(l) => r.operator_key.deep_view() == Some(l.operator_public_key@)
                    && r.system_account.deep_view() == Some(l.wasmcloud_system_account@),
                None => r.operator_key is None && r.system_account is None,
            },
    {
        let (operator_key, system_account) = config.generator_keys();
        LatticeProtoApi {
            nats_url: args.nats_url.clone(),
            component: config.lattices.is_some(),
            operator_key,
            system_account,
        }
    }

    /// The lattice that a subject is about.
    pub fn lattice_from_subject(&self, subject: &str) -> (r: Option<String>)
        ensures
            r.deep_view() == lattice_of(subject@),
    {
        let tokens = split(subject, '.');
        assert(tokens.deep_view().len() == tokens@.len());
        if tokens.len() < 5 {
            return None;
        }
        assert(tokens.deep_view()[4] == tokens@[4]@);
        Some(tokens[4].clone())
    }

    /// Where a message goes, or what is wrong with its content type, which is not answered.
    pub fn handle_msg(&self, subject: &str, headers: Option<&HeaderMap>) -> (r: Result<
        Route,
        String,
    >)
        requires
            content_error(headers) is None ==> text::split_on(subject@, '.').len() >= 4,
        ensures
            match content_error(headers) {
                Some(e) => r matches Err(text) && text@ == e,
                None => r matches Ok(route) && route@ == route_of(subject@),
            },
    {
        let lattice = self.lattice_from_subject(subject);
        let headers = match headers {
            Some(h) => h,
            None => return Err("No headers -- content-type header is missing".to_owned()),
        };
        match get_header(headers, CONTENT_TYPE) {
            Some(content_type) => {
                if !same(content_type.as_str(), MIME_TYPE) {
                    return Err(concatenate("Invalid content type: ", content_type.as_str()));
                }
            },
            None => return Err("No content type header".to_owned()),
        }
        let tokens = split(subject, '.');
        assert(tokens.deep_view().len() == tokens@.len());
        assert(tokens.deep_view()[3] == tokens@[3]@);
        let operation = tokens[3].clone();
        let name = operation.as_str();
        let lattice = match lattice {
            Some(lattice) => lattice,
            None => return Ok(
                if same(name, "watch") {
                    Route::Operation(Operation::Watch)
                } else {
                    Route::NoLattice
                },
            ),
        };
        Ok(
            Route::Operation(
                if same(name, "add") {
                    Operation::Add(lattice)
                } else if same(name, "update") {
                    Operation::Update(lattice)
                } else if same(name, "delete") {
                    Operation::Delete(lattice)
                } else if same(name, "get") {
                    Operation::Get
                } else if same(name, "watch") {
                    Operation::Watch
                } else {
                    Operation::Invalid(operation)
                },
            ),
        )
    }

    /// The failure of an operation that there is not.
    pub fn invalid_operation(&self, operation: &str) -> (r: String)
        ensures
            r@ == "Invalid operation: "@ + operation@,
    {
        concatenate("Invalid operation: ", operation)
    }

    /// What is sent to the one who asked, given the result of the operation: a protobuf message,
    /// the text of the failure, or nothing.
    pub fn reply(&self, result: Result<Option<Vec<u8>>, String>) -> (r: Reply)
        ensures
            match result {
                Ok(Some(payload)) => {
                    &&& r matches Reply::Message(headers, bytes)
                    &&& bytes == payload
                    &&& content_error(Some(&headers)) is None
                    &&& (headers::header_values(headers) == Map::<
                        Seq<char>,
                        Seq<Seq<char>>,
                    >::empty().insert(CONTENT_TYPE@, seq![MIME_TYPE@]))
                },
                Ok(None) => r is Nothing,
                Err(e) => r matches Reply::Text(text) && text == e,
            },
    {
        match result {
            Ok(Some(payload)) => Reply::Message(content_type_headers(), payload),
            Ok(None) => Reply::Nothing,
            Err(e) => Reply::Text(e),
        }
    }

    /// What the lattice generator is given to complete a lattice.
    pub fn generator_context(&self, lattice: Lattice) -> (r: Context)
        ensures
            is_context(*self, lattice@, r@),
    {
        Context {
            lattice: component_lattice(lattice),
            additional_metadata: None,
            operator_key: copy_text(&self.operator_key),
            system_account: copy_text(&self.system_account),
        }
    }
}

/// `context` is what the lattice generator is given to complete `lattice`.
pub open spec fn is_context(
    api: LatticeProtoApi,
    lattice: proto::LatticeView,
    context: control::ContextView,
) -> bool {
    &&& bindings::is_component_lattice(lattice, context.lattice)
    &&& context.additional_metadata is None
    &&& context.operator_key == api.operator_key.deep_view()
    &&& context.system_account == api.system_account.deep_view()
}

/// A lattice that has metadata, a specification and a status.
pub open spec fn is_complete(lattice: proto::LatticeView) -> bool {
    lattice.meta is Some && lattice.spec is Some && lattice.spec->Some_0.status is Some
}

/// `lattice` in the phase `phase`.
pub open spec fn in_phase(lattice: proto::LatticeView, phase: LatticePhase) -> proto::LatticeView {
    proto::LatticeView {
        spec: Some(
            proto::LatticeSpecView {
                status: Some(LatticeStatus { phase: phase.number() }),
                ..lattice.spec->Some_0
            },
        ),
        ..lattice
    }
}

/// `lattice` with the version `version`.
pub open spec fn with_version(
    lattice: proto::LatticeView,
    version: Seq<char>,
) -> proto::LatticeView {
    proto::LatticeView {
        meta: Some(proto::MetadataView { version, ..lattice.meta->Some_0 }),
        ..lattice
    }
}

/// Puts a lattice that has a specification in a phase.
fn set_phase(lattice: &mut Lattice, phase: LatticePhase)
    requires
        old(lattice).spec is Some,
    ensures
        final(lattice)@ == in_phase(old(lattice)@, phase),
{
    if let Some(spec) = &mut lattice.spec {
        spec.status = Some(LatticeStatus { phase: phase.to_i32() });
    }
}

/// Gives a lattice that has metadata a version.
fn set_version(lattice: &mut Lattice, version: String)
    requires
        old(lattice).meta is Some,
    ensures
        final(lattice)@ == with_version(old(lattice)@, version@),
{
    if let Some(meta) = &mut lattice.meta {
        meta.version = version;
    }
}

/// A new lattice as it is first written: with metadata of its own, and deletable if nothing is
/// specified of it.
pub open spec fn prepared(
    lattice: proto::LatticeView,
    name: Seq<char>,
    version: Seq<char>,
    uid: Seq<char>,
) -> proto::LatticeView {
    in_phase(
        proto::LatticeView {
            meta: Some(proto::MetadataView { name, version, uid, ..proto::default_metadata() }),
            spec: match lattice.spec {
                Some(spec) => Some(spec),
                None => Some(proto::LatticeSpecView { deletable: true, ..proto::default_spec() }),
            },
        },
        LatticePhase::LatticeProvisioning,
    )
}

/// A new lattice as it is first written.
pub fn prepare(lattice: Lattice, name: &str, version: String, uid: String) -> (r: Lattice)
    ensures
        r@ == prepared(lattice@, name@, version@, uid@),
{
    let mut lattice = lattice;
    lattice.meta = Some(
        Metadata {
            name: name.to_owned(),
            version,
            uid,
            labels: Labels::new(),
            annotations: Labels::new(),
        },
    );
    if lattice.spec.is_none() {
        let mut spec = LatticeSpec::default();
        spec.deletable = true;
        lattice.spec = Some(spec);
    }
    set_phase(&mut lattice, LatticePhase::LatticeProvisioning);
    lattice
}

/// How far adding a lattice has come: what is being done.
#[derive(Clone, Copy, Debug, PartialEq, Eq, Structural)]
pub enum AddStage {
    DataBucket,
    ConfigBucket,
    Opening,
    Writing,
    Creating,
    Reopening,
    Updating,
}

/// Adding a lattice.
#[derive(Debug)]
pub struct AddLattice {
    pub stage: AddStage,
    pub name: String,
    pub version: String,
    pub lattice: Lattice,
    pub revision: u64,
}

/// What an [`AddLattice`] says.
#[verifier::ext_equal]
pub struct AddLatticeView {
    pub stage: AddStage,
    pub name: Seq<char>,
    pub version: Seq<char>,
    pub lattice: proto::LatticeView,
    pub revision: u64,
}

impl View for AddLattice {
    type V = AddLatticeView;

    open spec fn view(&self) -> AddLatticeView {
        AddLatticeView {
            stage: self.stage,
            name: self.name@,
            version: self.version@,
            lattice: self.lattice@,
            revision: self.revision,
        }
    }
}

/// What adding a lattice does next: an effect, or it is finished with the version that the lattice
/// was first written with, or with a failure.
pub enum AddStep {
    Do(AddLattice, Effect<Lattice>),
    Finish(Result<String, String>),
}

/// What an [`AddStep`] says.
#[verifier::ext_equal]
pub enum AddStepView {
    Do(AddLatticeView, EffectView<proto::LatticeView>),
    Finish(Result<Seq<char>, Seq<char>>),
}

impl View for AddStep {
    type V = AddStepView;

    open spec fn view(&self) -> AddStepView {
        match self {
            AddStep::Do(state, effect) => AddStepView::Do(state@, effect@),
            AddStep::Finish(Ok(version)) => AddStepView::Finish(Ok(version@)),
            AddStep::Finish(Err(e)) => AddStepView::Finish(Err(e@)),
        }
    }
}

/// The lattice that is being added is complete, and the outcome is one that what is being done can
/// have.
pub open spec fn add_expects(
    state: AddLatticeView,
    outcome: OutcomeView<proto::LatticeView>,
) -> bool {
    &&& is_complete(state.lattice)
    &&& match state.stage {
        AddStage::Writing => outcome is Written || outcome is Failed,
        AddStage::Creating => outcome is Created,
        _ => outcome is Done || outcome is Failed,
    }
}

/// The lattice is created, and the bucket is opened once more.
pub open spec fn add_reopen(state: AddLatticeView) -> AddStepView {
    AddStepView::Do(
        AddLatticeView {
            stage: AddStage::Reopening,
            lattice: in_phase(state.lattice, LatticePhase::LatticeCreated),
            ..state
        },
        EffectView::OpenBucket { bucket: LATTICE_BUCKET@ },
    )
}

/// Whether adding a lattice has the lattice generator complete it next.
pub open spec fn calls_generator(
    api: LatticeProtoApi,
    state: AddLatticeView,
    outcome: OutcomeView<proto::LatticeView>,
) -> bool {
    state.stage == AddStage::Writing && outcome is Written && api.component
}

/// What adding a lattice does next, given how what was being done went, with `fresh` for a new
/// version and `context` for what the lattice generator is given.
pub open spec fn add_next(
    api: LatticeProtoApi,
    state: AddLatticeView,
    outcome: OutcomeView<proto::LatticeView>,
    fresh: Seq<char>,
    context: control::ContextView,
) -> AddStepView {
    match (state.stage, outcome) {
        (_, OutcomeView::Failed(e)) => AddStepView::Finish(Err(e)),
        (AddStage::DataBucket, _) => AddStepView::Do(
            AddLatticeView { stage: AddStage::ConfigBucket, ..state },
            EffectView::CreateBucket { bucket: "CONFIGDATA_"@ + state.name, replicas: 1 },
        ),
        (AddStage::ConfigBucket, _) => AddStepView::Do(
            AddLatticeView { stage: AddStage::Opening, ..state },
            EffectView::OpenBucket { bucket: LATTICE_BUCKET@ },
        ),
        (AddStage::Opening, _) => AddStepView::Do(
            AddLatticeView { stage: AddStage::Writing, ..state },
            EffectView::Put { key: state.name, lattice: state.lattice },
        ),
        (AddStage::Writing, OutcomeView::Written(revision)) => {
            let written = AddLatticeView { revision, ..state };
            if api.component {
                AddStepView::Do(
                    AddLatticeView { stage: AddStage::Creating, ..written },
                    EffectView::Create { context },
                )
            } else {
                add_reopen(written)
            }
        },
        (AddStage::Creating, OutcomeView::Created(Err(e))) => AddStepView::Finish(
            Err("Error invoking component: "@ + e),
        ),
        (AddStage::Creating, OutcomeView::Created(Ok(response))) => add_reopen(
            AddLatticeView { lattice: bindings::proto_of(response.lattice), ..state },
        ),
        (AddStage::Reopening, _) => {
            let lattice = with_version(state.lattice, fresh);
            AddStepView::Do(
                AddLatticeView { stage: AddStage::Updating, lattice, ..state },
                EffectView::Update { key: state.name, lattice, revision: state.revision },
            )
        },
        _ => AddStepView::Finish(Ok(state.version)),
    }
}

/// The first step of adding a lattice.
pub open spec fn add_first(
    name: Seq<char>,
    version: Seq<char>,
    lattice: proto::LatticeView,
) -> AddStepView {
    AddStepView::Do(
        AddLatticeView { stage: AddStage::DataBucket, name, version, lattice, revision: 0 },
        EffectView::CreateBucket { bucket: "LATTICEDATA_"@ + name, replicas: 1 },
    )
}

impl LatticeProtoApi {
    /// Starts to add the lattice `name`, for which the request has to have a lattice.
    pub fn add_lattice(&self, name: &str, lattice: Option<Lattice>) -> (r: AddStep)
        ensures
            match lattice {
                None => r@ == AddStepView::Finish(Err("No lattice in request"@)),
                Some(lattice) => exists|version: Seq<char>, uid: Seq<char>|
                    ids::is_ulid(version) && ids::is_uuid(uid) && r@ == add_first(
                        name@,
                        version,
                        #[trigger] prepared(lattice@, name@, version, uid),
                    ),
            },
    {
        let lattice = match lattice {
            Some(lattice) => lattice,
            None => return AddStep::Finish(Err("No lattice in request".to_owned())),
        };
        let version = new_ulid();
        let uid = new_uuid();
        let ghost drawn = (version@, uid@);
        let ghost asked = lattice@;
        let lattice = prepare(lattice, name, version.clone(), uid);
        assert(lattice@ == prepared(asked, name@, drawn.0, drawn.1));
        AddStep::Do(
            AddLattice {
                stage: AddStage::DataBucket,
                name: name.to_owned(),
                version,
                lattice,
                revision: 0,
            },
            Effect::CreateBucket { bucket: concatenate("LATTICEDATA_", name), replicas: 1 },
        )
    }

    /// Goes on with adding a lattice, given how what was being done went. In its last write the
    /// lattice gets a new version.
    pub fn add_lattice_next(&self, state: AddLattice, outcome: Outcome<Lattice>) -> (r: AddStep)
        requires
            add_expects(state@, outcome@),
        ensures
            exists|fresh: Seq<char>, context: control::ContextView|
                ids::is_ulid(fresh) && (calls_generator(*self, state@, outcome@)
                    ==> is_context(*self, state.lattice@, context)) && r@ == #[trigger] add_next(
                    *self,
                    state@,
                    outcome@,
                    fresh,
                    context,
                ),
    {
        let version = new_ulid();
        self.add_lattice_with(state, outcome, version)
    }

    /// Goes on with adding a lattice, with `version` for a new version.
    pub fn add_lattice_with(
        &self,
        state: AddLattice,
        outcome: Outcome<Lattice>,
        version: String,
    ) -> (r: AddStep)
        requires
            add_expects(state@, outcome@),
        ensures
            exists|context: control::ContextView|
                (calls_generator(*self, state@, outcome@) ==> is_context(
                    *self,
                    state.lattice@,
                    context,
                )) && r@ == #[trigger] add_next(*self, state@, outcome@, version@, context),
    {
        let ghost before = state@;
        let ghost went = outcome@;
        let ghost mut given = arbitrary();
        let mut state = state;
        let r = match outcome {
            Outcome::Failed(e) => AddStep::Finish(Err(e)),
            Outcome::Written(revision) => {
                state.revision = revision;
                if self.component {
                    state.stage = AddStage::Creating;
                    let context = self.generator_context(state.lattice.clone());
                    proof {
                        given = context@;
                    }
                    AddStep::Do(state, Effect::Create { context })
                } else {
                    Self::reopen(state)
                }
            },
            Outcome::Created(Err(e)) => AddStep::Finish(
                Err(concatenate("Error invoking component: ", e.as_str())),
            ),
            Outcome::Created(Ok(response)) => {
                state.lattice = proto_lattice(response.lattice);
                Self::reopen(state)
            },
            _ => match state.stage {
                AddStage::DataBucket => {
                    state.stage = AddStage::ConfigBucket;
                    let bucket = concatenate("CONFIGDATA_", state.name.as_str());
                    AddStep::Do(state, Effect::CreateBucket { bucket, replicas: 1 })
                },
                AddStage::ConfigBucket => {
                    state.stage = AddStage::Opening;
                    AddStep::Do(state, Effect::OpenBucket { bucket: LATTICE_BUCKET.to_owned() })
                },
                AddStage::Opening => {
                    state.stage = AddStage::Writing;
                    let effect = Effect::Put {
                        key: state.name.clone(),
                        lattice: state.lattice.clone(),
                    };
                    AddStep::Do(state, effect)
                },
                AddStage::Reopening => {
                    state.stage = AddStage::Updating;
                    set_version(&mut state.lattice, version);
                    let effect = Effect::Update {
                        key: state.name.clone(),
                        lattice: state.lattice.clone(),
                        revision: state.revision,
                    };
                    AddStep::Do(state, effect)
                },
                _ => AddStep::Finish(Ok(state.version)),
            },
        };
        assert(r@ == add_next(*self, before, went, version@, given));
        r
    }

    /// The lattice is created, and the bucket is opened once more.
    fn reopen(state: AddLattice) -> (r: AddStep)
        requires
            is_complete(state.lattice@),
        ensures
            r@ == add_reopen(state@),
    {
        let mut state = state;
        state.stage = AddStage::Reopening;
        set_phase(&mut state.lattice, LatticePhase::LatticeCreated);
        AddStep::Do(state, Effect::OpenBucket { bucket: LATTICE_BUCKET.to_owned() })
    }
}

/// The fields of a lattice that an update can change.
pub open spec fn names_field(paths: Seq<Seq<char>>) -> bool {
    paths.contains("description"@) || paths.contains("deletable"@) || paths.contains("account"@)
        || paths.contains("signing_keys"@)
}

/// `lattice` with the fields that `paths` names as `update` has them. Whatever else `paths` names
/// is ignored.
pub open spec fn updated(
    lattice: proto::LatticeView,
    update: proto::LatticeUpdateView,
    paths: Seq<Seq<char>>,
) -> proto::LatticeView {
    let spec = lattice.spec->Some_0;
    if lattice.spec is None {
        lattice
    } else {
        proto::LatticeView {
            spec: Some(
                proto::LatticeSpecView {
                    description: if paths.contains("description"@) {
                        update.description
                    } else {
                        spec.description
                    },
                    deletable: if paths.contains("deletable"@) {
                        update.deletable
                    } else {
                        spec.deletable
                    },
                    account: if paths.contains("account"@) {
                        update.account
                    } else {
                        spec.account
                    },
                    signing_keys: if paths.contains("signing_keys"@) {
                        update.signing_keys
                    } else {
                        spec.signing_keys
                    },
                    ..spec
                },
            ),
            ..lattice
        }
    }
}

/// Whether a text is among those of a list.
fn holds(list: &Vec<String>, text: &str) -> (r: bool)
    ensures
        r == list.deep_view().contains(text@),
{
    let mut i: usize = 0;
    while i < list.len()
        invariant
            i <= list@.len(),
            forall|j: int| 0 <= j < i ==> (#[trigger] list.deep_view()[j]) != text@,
        decreases list@.len() - i,
    {
        assert(list.deep_view()[i as int] == list@[i as int]@);
        if same(list[i].as_str(), text) {
            return true;
        }
        i = i + 1;
    }
    false
}

/// Changes the fields of a lattice that `paths` names.
pub fn apply_update(lattice: &mut Lattice, update: &LatticeUpdate, paths: &Vec<String>)
    requires
        names_field(paths.deep_view()) ==> old(lattice).spec is Some,
    ensures
        final(lattice)@ == updated(old(lattice)@, update@, paths.deep_view()),
{
    if let Some(spec) = &mut lattice.spec {
        if holds(paths, "description") {
            spec.description = update.description.clone();
        }
        if holds(paths, "deletable") {
            spec.deletable = update.deletable;
        }
        if holds(paths, "account") {
            spec.account = update.account.clone();
        }
        if holds(paths, "signing_keys") {
            spec.signing_keys = copy_list(&update.signing_keys);
        }
    }
}

/// How far changing a lattice has come: what is being done.
#[derive(Clone, Copy, Debug, PartialEq, Eq, Structural)]
pub enum UpdateStage {
    Opening,
    Reading,
    Writing,
}

/// Changing a lattice.
#[derive(Debug)]
pub struct UpdateLattice {
    pub stage: UpdateStage,
    pub name: String,
    pub update: LatticeUpdate,
    pub paths: Vec<String>,
    /// The version of the lattice that is being written.
    pub version: String,
}

/// What an [`UpdateLattice`] says.
#[verifier::ext_equal]
pub struct UpdateLatticeView {
    pub stage: UpdateStage,
    pub name: Seq<char>,
    pub update: proto::LatticeUpdateView,
    pub paths: Seq<Seq<char>>,
    pub version: Seq<char>,
}

impl View for UpdateLattice {
    type V = UpdateLatticeView;

    open spec fn view(&self) -> UpdateLatticeView {
        UpdateLatticeView {
            stage: self.stage,
            name: self.name@,
            update: self.update@,
            paths: self.paths.deep_view(),
            version: self.version@,
        }
    }
}

/// What changing a lattice does next: an effect, or it is finished with the version of the lattice
/// or with a failure.
pub enum UpdateStep {
    Do(UpdateLattice, Effect<Lattice>),
    Finish(Result<String, String>),
}

/// What an [`UpdateStep`] says.
#[verifier::ext_equal]
pub enum UpdateStepView {
    Do(UpdateLatticeView, EffectView<proto::LatticeView>),
    Finish(Result<Seq<char>, Seq<char>>),
}

impl View for UpdateStep {
    type V = UpdateStepView;

    open spec fn view(&self) -> UpdateStepView {
        match self {
            UpdateStep::Do(state, effect) => UpdateStepView::Do(state@, effect@),
            UpdateStep::Finish(Ok(version)) => UpdateStepView::Finish(Ok(version@)),
            UpdateStep::Finish(Err(e)) => UpdateStepView::Finish(Err(e@)),
        }
    }
}

/// The outcome is one that what is being done can have; a lattice that is found has metadata, and
/// a specification if a field of it is to be changed.
pub open spec fn update_expects(
    state: UpdateLatticeView,
    outcome: OutcomeView<proto::LatticeView>,
) -> bool {
    match state.stage {
        UpdateStage::Opening => outcome is Done || outcome is Failed,
        UpdateStage::Reading => match outcome {
            OutcomeView::Found(Some(lattice)) => lattice.meta is Some && (names_field(state.paths)
                ==> lattice.spec is Some),
            OutcomeView::Found(None) => true,
            _ => outcome is Unreadable || outcome is Failed,
        },
        UpdateStage::Writing => outcome is Written || outcome is Failed,
    }
}

/// What changing a lattice does next, given how what was being done went, with `fresh` for a new
/// version. A lattice that is found is always written, with a new version.
pub open spec fn update_next(
    state: UpdateLatticeView,
    outcome: OutcomeView<proto::LatticeView>,
    fresh: Seq<char>,
) -> UpdateStepView {
    match (state.stage, outcome) {
        (UpdateStage::Reading, OutcomeView::Failed(e)) => UpdateStepView::Finish(
            Err("Error getting lattice: "@ + e),
        ),
        (_, OutcomeView::Failed(e)) => UpdateStepView::Finish(Err(e)),
        (UpdateStage::Opening, _) => UpdateStepView::Do(
            UpdateLatticeView { stage: UpdateStage::Reading, ..state },
            EffectView::Get { key: state.name },
        ),
        (UpdateStage::Reading, OutcomeView::Found(Some(lattice))) => UpdateStepView::Do(
            UpdateLatticeView { stage: UpdateStage::Writing, version: fresh, ..state },
            EffectView::Put {
                key: state.name,
                lattice: with_version(updated(lattice, state.update, state.paths), fresh),
            },
        ),
        (UpdateStage::Reading, OutcomeView::Unreadable(e)) => UpdateStepView::Finish(Err(e)),
        (UpdateStage::Reading, _) => UpdateStepView::Finish(Err("Lattice not found"@)),
        (UpdateStage::Writing, _) => UpdateStepView::Finish(Ok(state.version)),
    }
}

/// The first step of changing a lattice.
pub open spec fn update_first(
    name: Seq<char>,
    update: Option<proto::LatticeUpdateView>,
    paths: Option<Seq<Seq<char>>>,
) -> UpdateStepView {
    match (paths, update) {
        (None, _) => UpdateStepView::Finish(Err("No update mask in request"@)),
        (Some(_), None) => UpdateStepView::Finish(Err("No update in request"@)),
        (Some(paths), Some(update)) => UpdateStepView::Do(
            UpdateLatticeView {
                stage: UpdateStage::Opening,
                name,
                update,
                paths,
                version: Seq::empty(),
            },
            EffectView::OpenBucket { bucket: LATTICE_BUCKET@ },
        ),
    }
}

impl LatticeProtoApi {
    /// Starts to change the lattice `name`, for which the request has to have paths and values.
    pub fn update_lattice(
        &self,
        name: &str,
        update: Option<LatticeUpdate>,
        paths: Option<Vec<String>>,
    ) -> (r: UpdateStep)
        ensures
            r@ == update_first(
                name@,
                match update {
                    Some(u) => Some(u@),
                    None => None,
                },
                paths.deep_view(),
            ),
    {
        let paths = match paths {
            Some(paths) => paths,
            None => return UpdateStep::Finish(Err("No update mask in request".to_owned())),
        };
        let update = match update {
            Some(update) => update,
            None => return UpdateStep::Finish(Err("No update in request".to_owned())),
        };
        UpdateStep::Do(
            UpdateLattice {
                stage: UpdateStage::Opening,
                name: name.to_owned(),
                update,
                paths,
                version: String::new(),
            },
            Effect::OpenBucket { bucket: LATTICE_BUCKET.to_owned() },
        )
    }

    /// Goes on with changing a lattice, given how what was being done went.
    pub fn update_lattice_next(&self, state: UpdateLattice, outcome: Outcome<Lattice>) -> (r:
        UpdateStep)
        requires
            update_expects(state@, outcome@),
        ensures
            exists|fresh: Seq<char>|
                ids::is_ulid(fresh) && r@ == #[trigger] update_next(state@, outcome@, fresh),
    {
        let version = new_ulid();
        let ghost fresh = version@;
        let r = self.update_lattice_with(state, outcome, version);
        assert(ids::is_ulid(fresh) && r@ == update_next(state@, outcome@, fresh));
        r
    }

    /// Goes on with changing a lattice, with `version` for a new version.
    pub fn update_lattice_with(
        &self,
        state: UpdateLattice,
        outcome: Outcome<Lattice>,
        version: String,
    ) -> (r: UpdateStep)
        requires
            update_expects(state@, outcome@),
        ensures
            r@ == update_next(state@, outcome@, version@),
    {
        let mut state = state;
        match (state.stage, outcome) {
            (UpdateStage::Reading, Outcome::Failed(e)) => UpdateStep::Finish(
                Err(concatenate("Error getting lattice: ", e.as_str())),
            ),
            (_, Outcome::Failed(e)) => UpdateStep::Finish(Err(e)),
            (UpdateStage::Opening, _) => {
                state.stage = UpdateStage::Reading;
                let key = state.name.clone();
                UpdateStep::Do(state, Effect::Get { key })
            },
            (UpdateStage::Reading, Outcome::Found(Some(found))) => {
                let mut lattice = found;
                apply_update(&mut lattice, &state.update, &state.paths);
                set_version(&mut lattice, version.clone());
                state.stage = UpdateStage::Writing;
                state.version = version;
                let key = state.name.clone();
                UpdateStep::Do(state, Effect::Put { key, lattice })
            },
            (UpdateStage::Reading, Outcome::Unreadable(e)) => UpdateStep::Finish(Err(e)),
            (UpdateStage::Reading, _) => UpdateStep::Finish(Err("Lattice not found".to_owned())),
            (UpdateStage::Writing, _) => UpdateStep::Finish(Ok(state.version)),
        }
    }
}

/// How far deleting a lattice has come: what is being done.
#[derive(Clone, Copy, Debug, PartialEq, Eq, Structural)]
pub enum DeleteStage {
    Opening,
    Reading,
    Asking,
    Writing,
    Deleting,
}

/// Deleting a lattice.
#[derive(Debug)]
pub struct DeleteLattice {
    pub stage: DeleteStage,
    pub name: String,
    /// The lattice, once it is read.
    pub lattice: Option<Lattice>,
}

/// What a [`DeleteLattice`] says.
#[verifier::ext_equal]
pub struct DeleteLatticeView {
    pub stage: DeleteStage,
    pub name: Seq<char>,
    pub lattice: Option<proto::LatticeView>,
}

impl View for DeleteLattice {
    type V = DeleteLatticeView;

    open spec fn view(&self) -> DeleteLatticeView {
        DeleteLatticeView {
            stage: self.stage,
            name: self.name@,
            lattice: self.lattice.deep_view(),
        }
    }
}

/// What deleting a lattice does next: an effect, or it is finished with the lattice that was
/// deleted or with a failure.
pub enum DeleteStep {
    Do(DeleteLattice, Effect<Lattice>),
    Finish(Result<Lattice, String>),
}

/// What a [`DeleteStep`] says.
#[verifier::ext_equal]
pub enum DeleteStepView {
    Do(DeleteLatticeView, EffectView<proto::LatticeView>),
    Finish(Result<proto::LatticeView, Seq<char>>),
}

impl View for DeleteStep {
    type V = DeleteStepView;

    open spec fn view(&self) -> DeleteStepView {
        match self {
            DeleteStep::Do(state, effect) => DeleteStepView::Do(state@, effect@),
            DeleteStep::Finish(Ok(lattice)) => DeleteStepView::Finish(Ok(lattice@)),
            DeleteStep::Finish(Err(e)) => DeleteStepView::Finish(Err(e@)),
        }
    }
}

/// The lattice is known as soon as it has been read, and the outcome is one that what is being
/// done can have; a lattice that is to be deleted is complete.
pub open spec fn delete_expects(
    state: DeleteLatticeView,
    outcome: OutcomeView<proto::LatticeView>,
) -> bool {
    match state.stage {
        DeleteStage::Opening => outcome is Done || outcome is Failed,
        DeleteStage::Reading => outcome is Found || outcome is Unreadable || outcome is Failed,
        DeleteStage::Asking => state.lattice is Some && match outcome {
            OutcomeView::Reply(payload) => payload == lattice_wrpc::no_applications()
                ==> is_complete(state.lattice->Some_0),
            _ => outcome is Failed,
        },
        DeleteStage::Writing => state.lattice is Some && (outcome is Written || outcome is Failed),
        DeleteStage::Deleting => state.lattice is Some && (outcome is Done || outcome is Failed),
    }
}

/// What deleting a lattice does next, given how what was being done went, with `fresh` for a new
/// version. What is written before the lattice is deleted is empty.
pub open spec fn delete_next(
    state: DeleteLatticeView,
    outcome: OutcomeView<proto::LatticeView>,
    fresh: Seq<char>,
) -> DeleteStepView {
    let lattice = state.lattice->Some_0;
    match (state.stage, outcome) {
        (DeleteStage::Reading, OutcomeView::Failed(e)) => DeleteStepView::Finish(
            Err("Error getting lattice: "@ + e),
        ),
        (_, OutcomeView::Failed(e)) => DeleteStepView::Finish(Err(e)),
        (DeleteStage::Opening, _) => DeleteStepView::Do(
            DeleteLatticeView { stage: DeleteStage::Reading, ..state },
            EffectView::Get { key: state.name },
        ),
        (DeleteStage::Reading, OutcomeView::Found(Some(found))) => DeleteStepView::Do(
            DeleteLatticeView { stage: DeleteStage::Asking, lattice: Some(found), ..state },
            EffectView::Request {
                subject: lattice_wrpc::applications_subject(state.name),
                payload: Seq::empty(),
            },
        ),
        (DeleteStage::Reading, OutcomeView::Unreadable(e)) => DeleteStepView::Finish(Err(e)),
        (DeleteStage::Reading, _) => DeleteStepView::Finish(Err("Lattice not found"@)),
        (DeleteStage::Asking, OutcomeView::Reply(payload)) => if payload
            == lattice_wrpc::no_applications() {
            let deleting = with_version(in_phase(lattice, LatticePhase::LatticeDeleting), fresh);
            DeleteStepView::Do(
                DeleteLatticeView { stage: DeleteStage::Writing, lattice: Some(deleting), ..state },
                EffectView::PutEmpty { key: state.name },
            )
        } else {
            DeleteStepView::Finish(
                Err("Lattice has applications. Delete them first before deleting the lattice"@),
            )
        },
        (DeleteStage::Writing, _) => DeleteStepView::Do(
            DeleteLatticeView { stage: DeleteStage::Deleting, ..state },
            EffectView::Delete { key: state.name },
        ),
        _ => DeleteStepView::Finish(Ok(lattice)),
    }
}

/// The first step of deleting a lattice.
pub open spec fn delete_first(name: Seq<char>) -> DeleteStepView {
    DeleteStepView::Do(
        DeleteLatticeView { stage: DeleteStage::Opening, name, lattice: None },
        EffectView::OpenBucket { bucket: LATTICE_BUCKET@ },
    )
}

impl LatticeProtoApi {
    /// Starts to delete the lattice `name`.
    pub fn delete_lattice(&self, name: &str) -> (r: DeleteStep)
        ensures
            r@ == delete_first(name@),
    {
        DeleteStep::Do(
            DeleteLattice { stage: DeleteStage::Opening, name: name.to_owned(), lattice: None },
            Effect::OpenBucket { bucket: LATTICE_BUCKET.to_owned() },
        )
    }

    /// Goes on with deleting a lattice, given how what was being done went. A lattice that has
    /// applications is not deleted.
    pub fn delete_lattice_next(&self, state: DeleteLattice, outcome: Outcome<Lattice>) -> (r:
        DeleteStep)
        requires
            delete_expects(state@, outcome@),
        ensures
            exists|fresh: Seq<char>|
                ids::is_ulid(fresh) && r@ == #[trigger] delete_next(state@, outcome@, fresh),
    {
        let version = new_ulid();
        let ghost fresh = version@;
        let r = self.delete_lattice_with(state, outcome, version);
        assert(ids::is_ulid(fresh) && r@ == delete_next(state@, outcome@, fresh));
        r
    }

    /// Goes on with deleting a lattice, with `version` for a new version.
    pub fn delete_lattice_with(
        &self,
        state: DeleteLattice,
        outcome: Outcome<Lattice>,
        version: String,
    ) -> (r: DeleteStep)
        requires
            delete_expects(state@, outcome@),
        ensures
            r@ == delete_next(state@, outcome@, version@),
    {
        let mut state = state;
        match (state.stage, outcome) {
            (DeleteStage::Reading, Outcome::Failed(e)) => DeleteStep::Finish(
                Err(concatenate("Error getting lattice: ", e.as_str())),
            ),
            (_, Outcome::Failed(e)) => DeleteStep::Finish(Err(e)),
            (DeleteStage::Opening, _) => {
                state.stage = DeleteStage::Reading;
                let key = state.name.clone();
                DeleteStep::Do(state, Effect::Get { key })
            },
            (DeleteStage::Reading, Outcome::Found(Some(lattice))) => {
                state.stage = DeleteStage::Asking;
                state.lattice = Some(lattice);
                let subject = model_list_subject(state.name.as_str());
                let payload: Vec<u8> = Vec::new();
                DeleteStep::Do(state, Effect::Request { subject, payload })
            },
            (DeleteStage::Reading, Outcome::Unreadable(e)) => DeleteStep::Finish(Err(e)),
            (DeleteStage::Reading, _) => DeleteStep::Finish(Err("Lattice not found".to_owned())),
            (stage, outcome) => {
                let mut lattice = match state.lattice {
                    Some(lattice) => lattice,
                    None => return DeleteStep::Finish(Err("Lattice not found".to_owned())),
                };
                match (stage, outcome) {
                    (DeleteStage::Asking, Outcome::Reply(payload)) => {
                        if is_empty_list(&payload) {
                            set_phase(&mut lattice, LatticePhase::LatticeDeleting);
                            set_version(&mut lattice, version);
                            let key = state.name.clone();
                            DeleteStep::Do(
                                DeleteLattice {
                                    stage: DeleteStage::Writing,
                                    name: state.name,
                                    lattice: Some(lattice),
                                },
                                Effect::PutEmpty { key },
                            )
                        } else {
                            DeleteStep::Finish(
                                Err(
                                    "Lattice has applications. Delete them first before deleting the lattice".to_owned(),
                                ),
                            )
                        }
                    },
                    (DeleteStage::Writing, _) => {
                        let key = state.name.clone();
                        DeleteStep::Do(
                            DeleteLattice {
                                stage: DeleteStage::Deleting,
                                name: state.name,
                                lattice: Some(lattice),
                            },
                            Effect::Delete { key },
                        )
                    },
                    _ => DeleteStep::Finish(Ok(lattice)),
                }
            },
        }
    }
}

/// Reading lattices, of which the first so many are read.
#[derive(Debug)]
pub struct GetLattices {
    /// Whether the bucket is open.
    pub open: bool,
    pub names: Vec<String>,
    pub lattices: Vec<Lattice>,
}

/// What a [`GetLattices`] says.
#[verifier::ext_equal]
pub struct GetLatticesView {
    pub open: bool,
    pub names: Seq<Seq<char>>,
    pub lattices: Seq<proto::LatticeView>,
}

impl View for GetLattices {
    type V = GetLatticesView;

    open spec fn view(&self) -> GetLatticesView {
        GetLatticesView {
            open: self.open,
            names: self.names.deep_view(),
            lattices: self.lattices.deep_view(),
        }
    }
}

/// What reading lattices does next: an effect, or it is finished with the lattices or with a
/// failure.
pub enum GetStep {
    Do(GetLattices, Effect<Lattice>),
    Finish(Result<Vec<Lattice>, String>),
}

/// What a [`GetStep`] says.
#[verifier::ext_equal]
pub enum GetStepView {
    Do(GetLatticesView, EffectView<proto::LatticeView>),
    Finish(Result<Seq<proto::LatticeView>, Seq<char>>),
}

impl View for GetStep {
    type V = GetStepView;

    open spec fn view(&self) -> GetStepView {
        match self {
            GetStep::Do(state, effect) => GetStepView::Do(state@, effect@),
            GetStep::Finish(Ok(lattices)) => GetStepView::Finish(Ok(lattices.deep_view())),
            GetStep::Finish(Err(e)) => GetStepView::Finish(Err(e@)),
        }
    }
}

/// The outcome is one that what is being done can have; there is a lattice to be read once the
/// bucket is open.
pub open spec fn get_expects(
    state: GetLatticesView,
    outcome: OutcomeView<proto::LatticeView>,
) -> bool {
    if state.open {
        state.lattices.len() < state.names.len() && (outcome is Found || outcome is Unreadable
            || outcome is Failed)
    } else {
        state.lattices.len() == 0 && (outcome is Done || outcome is Failed)
    }
}

/// Reads the next lattice, or finishes with all of them.
pub open spec fn get_more(state: GetLatticesView) -> GetStepView {
    if state.lattices.len() < state.names.len() {
        GetStepView::Do(
            GetLatticesView { open: true, ..state },
            EffectView::Get { key: state.names[state.lattices.len() as int] },
        )
    } else {
        GetStepView::Finish(Ok(state.lattices))
    }
}

/// What reading lattices does next, given how what was being done went: the first lattice that
/// cannot be read ends it.
pub open spec fn get_next(
    state: GetLatticesView,
    outcome: OutcomeView<proto::LatticeView>,
) -> GetStepView {
    if !state.open {
        match outcome {
            OutcomeView::Failed(e) => GetStepView::Finish(Err(e)),
            _ => get_more(state),
        }
    } else {
        match outcome {
            OutcomeView::Failed(e) => GetStepView::Finish(
                Err(
                    "Failed to get lattice "@ + state.names[state.lattices.len() as int] + ", "@
                        + e,
                ),
            ),
            OutcomeView::Unreadable(e) => GetStepView::Finish(Err(e)),
            OutcomeView::Found(Some(lattice)) => get_more(
                GetLatticesView { lattices: state.lattices.push(lattice), ..state },
            ),
            _ => GetStepView::Finish(Err("Lattice not found"@)),
        }
    }
}

/// The first step of reading lattices.
pub open spec fn get_first(names: Seq<Seq<char>>) -> GetStepView {
    GetStepView::Do(
        GetLatticesView { open: false, names, lattices: Seq::empty() },
        EffectView::OpenBucket { bucket: LATTICE_BUCKET@ },
    )
}

/// Why a watcher could not be sent a lattice.
#[derive(Debug, PartialEq, Eq)]
pub enum SendError {
    NoResponders,
    TimedOut,
    /// Something else, as this text says.
    Other(String),
}

/// What happens while lattices are watched.
pub enum WatchEvent {
    /// An entry of the bucket has been written: a lattice, or what this text says is none.
    Entry(Result<Lattice, String>),
    /// A lattice has been sent, or not.
    Sent(Result<(), SendError>),
    /// There are no more entries.
    Ended,
}

/// What watching lattices does next.
pub enum WatchAction {
    /// Waits for the next entry.
    Wait,
    /// Sends a lattice with these headers, and waits for the response.
    Send(HeaderMap, Lattice),
    /// Is finished: without an answer, or with a failure.
    Finish(Result<Option<Vec<u8>>, String>),
}

impl LatticeProtoApi {
    /// Starts to read lattices.
    pub fn get_lattices(&self, names: Vec<String>) -> (r: GetStep)
        ensures
            r@ == get_first(names.deep_view()),
    {
        let lattices: Vec<Lattice> = Vec::new();
        assert(lattices.deep_view() =~= Seq::empty());
        GetStep::Do(
            GetLattices { open: false, names, lattices },
            Effect::OpenBucket { bucket: LATTICE_BUCKET.to_owned() },
        )
    }

    /// Goes on with reading lattices, given how what was being done went.
    pub fn get_lattices_next(&self, state: GetLattices, outcome: Outcome<Lattice>) -> (r: GetStep)
        requires
            get_expects(state@, outcome@),
        ensures
            r@ == get_next(state@, outcome@),
    {
        let mut state = state;
        let ghost before = state@;
        match outcome {
            Outcome::Failed(e) => {
                if state.open {
                    let n: usize = state.lattices.len();
                    assert(state.names.deep_view()[n as int] == state.names@[n as int]@);
                    let text = concatenate("Failed to get lattice ", state.names[n].as_str());
                    let text = concatenate(concatenate(text.as_str(), ", ").as_str(), e.as_str());
                    GetStep::Finish(Err(text))
                } else {
                    GetStep::Finish(Err(e))
                }
            },
            Outcome::Unreadable(e) => GetStep::Finish(Err(e)),
            Outcome::Found(Some(lattice)) => {
                state.lattices.push(lattice);
                assert(state.lattices.deep_view() =~= before.lattices.push(lattice@));
                Self::get_more(state)
            },
            Outcome::Found(None) => GetStep::Finish(Err("Lattice not found".to_owned())),
            _ => Self::get_more(state),
        }
    }

    /// Reads the next lattice, or finishes with all of them.
    fn get_more(state: GetLattices) -> (r: GetStep)
        ensures
            r@ == get_more(state@),
    {
        let mut state = state;
        let n: usize = state.lattices.len();
        if n < state.names.len() {
            state.open = true;
            let key = state.names[n].clone();
            assert(state.names.deep_view()[n as int] == state.names@[n as int]@);
            GetStep::Do(state, Effect::Get { key })
        } else {
            GetStep::Finish(Ok(state.lattices))
        }
    }

    /// The keys to be watched for one who can be replied to: those of the given lattices, or every
    /// key if none is given.
    pub fn watch_lattices(&self, can_reply: bool, lattices: Vec<String>) -> (r: Result<
        Vec<String>,
        String,
    >)
        ensures
            if !can_reply {
                r matches Err(e) && e@ == "No reply-to subject"@
            } else if lattices@.len() == 0 {
                r matches Ok(keys) && keys.deep_view() == seq![">"@]
            } else {
                r matches Ok(keys) && keys.deep_view() == lattices.deep_view()
            },
    {
        if !can_reply {
            return Err("No reply-to subject".to_owned());
        }
        if lattices.len() == 0 {
            let all: Vec<String> = vec![">".to_owned()];
            assert(all.deep_view() =~= seq![">"@]);
            return Ok(all);
        }
        Ok(lattices)
    }

    /// What watching lattices does next: a lattice that was written is sent, an entry that is no
    /// lattice is passed over. Watching ends quietly when no one responds any more, and with a
    /// failure when sending fails otherwise.
    pub fn watch_next(&self, event: WatchEvent) -> (r: WatchAction)
        ensures
            match event {
                WatchEvent::Entry(Ok(lattice)) => r matches WatchAction::Send(headers, sent)
                    && sent == lattice && content_error(Some(&headers)) is None && (
                headers::header_values(headers) == Map::<Seq<char>, Seq<Seq<char>>>::empty().insert(
                    CONTENT_TYPE@,
                    seq![MIME_TYPE@],
                )),
                WatchEvent::Entry(Err(_)) => r is Wait,
                WatchEvent::Sent(Ok(_)) => r is Wait,
                WatchEvent::Sent(Err(SendError::Other(e))) => r matches WatchAction::Finish(
                    Err(text),
                ) && text == e,
                WatchEvent::Sent(Err(_)) | WatchEvent::Ended => r matches WatchAction::Finish(
                    Ok(None),
                ),
            },
    {
        match event {
            WatchEvent::Entry(Ok(lattice)) => WatchAction::Send(content_type_headers(), lattice),
            WatchEvent::Entry(Err(_)) => WatchAction::Wait,
            WatchEvent::Sent(Ok(_)) => WatchAction::Wait,
            WatchEvent::Sent(Err(SendError::NoResponders)) => WatchAction::Finish(Ok(None)),
            WatchEvent::Sent(Err(SendError::TimedOut)) => WatchAction::Finish(Ok(None)),
            WatchEvent::Sent(Err(SendError::Other(e))) => WatchAction::Finish(Err(e)),
            WatchEvent::Ended => WatchAction::Finish(Ok(None)),
        }
    }
}

/// The subject on which an operation on a lattice is asked for.
pub open spec fn operation_subject(operation: Seq<char>, lattice: Seq<char>) -> Seq<char> {
    LATTICE_SUBJECT@ + "."@ + operation + "."@ + lattice
}

/// The subject of an operation on a lattice, of which neither contains a dot, is routed to that
/// operation on that lattice.
pub proof fn operation_is_routed(operation: Seq<char>, lattice: Seq<char>)
    requires
        !operation.contains('.'),
        !lattice.contains('.'),
    ensures
        text::split_on(operation_subject(operation, lattice), '.').len() == 5,
        operation_of(operation_subject(operation, lattice)) == operation,
        lattice_of(operation_subject(operation, lattice)) == Some(lattice),
{
    reveal_strlit("wasmcloud.lattice.v1alpha1_proto");
    reveal_strlit(".");
    let parts = seq![
        LATTICE_SUBJECT@.subrange(0, 9),
        LATTICE_SUBJECT@.subrange(10, 17),
        LATTICE_SUBJECT@.subrange(18, 32),
        operation,
        lattice,
    ];
    assert forall|i: int| 0 <= i < parts.len() implies !(#[trigger] parts[i]).contains('.') by {
        assert(i == 0 || i == 1 || i == 2 || i == 3 || i == 4);
    }
    text::split_of_join_is_the_tokens(parts, '.');
    reveal_with_fuel(text::join, 6);
    let subject = operation_subject(operation, lattice);
    assert(parts.drop_last().drop_last().drop_last().drop_last() =~= seq![parts[0]]);
    assert(parts.drop_last().drop_last().drop_last() =~= seq![parts[0], parts[1]]);
    assert(parts.drop_last().drop_last() =~= seq![parts[0], parts[1], parts[2]]);
    assert(parts.drop_last() =~= seq![parts[0], parts[1], parts[2], parts[3]]);
    assert(text::join(parts, '.') =~= subject);
}

} // verus!
