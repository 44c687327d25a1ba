//! The records of the `wasmcloud:control` interfaces.
use crate::text::{copy_optional_list, copy_pairs, copy_text};
use vstd::prelude::*;

verus! {

/// How far a lattice has come in its life.
#[derive(Clone, Copy, Debug, PartialEq, Eq, Structural)]
pub enum LatticePhase {
    Provisioning,
    Created,
    Deleting,
}

/// The status of a lattice.
#[derive(Clone, Copy, Debug, PartialEq, Eq, Structural)]
pub struct LatticeStatus {
    pub phase: LatticePhase,
}

/// The name of a lattice, its version and what its owners have attached to it.
#[derive(Debug, PartialEq, Eq)]
pub struct Metadata {
    pub name: String,
    pub version: String,
    pub uid: String,
    pub labels: Vec<(String, String)>,
    pub annotations: Vec<(String, String)>,
}

/// A lattice.
#[derive(Debug, PartialEq, Eq)]
pub struct Lattice {
    pub metadata: Metadata,
    pub account: Option<String>,
    pub signing_keys: Option<Vec<String>>,
    pub description: Option<String>,
    pub deletable: bool,
    pub status: LatticeStatus,
}

/// What a [`Metadata`] says.
#[verifier::ext_equal]
pub struct MetadataView {
    pub name: Seq<char>,
    pub version: Seq<char>,
    pub uid: Seq<char>,
    pub labels: Seq<(Seq<char>, Seq<char>)>,
    pub annotations: Seq<(Seq<char>, Seq<char>)>,
}

/// What a [`Lattice`] says.
#[verifier::ext_equal]
pub struct LatticeView {
    pub metadata: MetadataView,
    pub account: Option<Seq<char>>,
    pub signing_keys: Option<Seq<Seq<char>>>,
    pub description: Option<Seq<char>>,
    pub deletable: bool,
    pub status: LatticeStatus,
}

impl View for Metadata {
    type V = MetadataView;

    open spec fn view(&self) -> MetadataView {
        MetadataView {
            name: self.name@,
            version: self.version@,
            uid: self.uid@,
            labels: self.labels.deep_view(),
            annotations: self.annotations.deep_view(),
        }
    }
}

impl DeepView for Metadata {
    type V = MetadataView;

    open spec fn deep_view(&self) -> MetadataView {
        self@
    }
}

impl View for Lattice {
    type V = LatticeView;

    open spec fn view(&self) -> LatticeView {
        LatticeView {
            metadata: self.metadata@,
            account: self.account.deep_view(),
            signing_keys: self.signing_keys.deep_view(),
            description: self.description.deep_view(),
            deletable: self.deletable,
            status: self.status,
        }
    }
}

impl DeepView for Lattice {
    type V = LatticeView;

    open spec fn deep_view(&self) -> LatticeView {
        self@
    }
}

impl Clone for Metadata {
    fn clone(&self) -> (r: Self)
        ensures
            r@ == self@,
    {
        Metadata {
            name: self.name.clone(),
            version: self.version.clone(),
            uid: self.uid.clone(),
            labels: copy_pairs(&self.labels),
            annotations: copy_pairs(&self.annotations),
        }
    }
}

impl Clone for Lattice {
    fn clone(&self) -> (r: Self)
        ensures
            r@ == self@,
    {
        Lattice {
            metadata: self.metadata.clone(),
            account: copy_text(&self.account),
            signing_keys: copy_optional_list(&self.signing_keys),
            description: copy_text(&self.description),
            deletable: self.deletable,
            status: self.status,
        }
    }
}

/// What the lattice generator is given to create a lattice.
#[derive(Debug, PartialEq, Eq)]
pub struct Context {
    pub lattice: Lattice,
    pub additional_metadata: Option<Vec<(String, String)>>,
    pub operator_key: Option<String>,
    pub system_account: Option<String>,
}

/// What a [`Context`] says.
#[verifier::ext_equal]
pub struct ContextView {
    pub lattice: LatticeView,
    pub additional_metadata: Option<Seq<(Seq<char>, Seq<char>)>>,
    pub operator_key: Option<Seq<char>>,
    pub system_account: Option<Seq<char>>,
}

impl View for Context {
    type V = ContextView;

    open spec fn view(&self) -> ContextView {
        ContextView {
            lattice: self.lattice@,
            additional_metadata: self.additional_metadata.deep_view(),
            operator_key: self.operator_key.deep_view(),
            system_account: self.system_account.deep_view(),
        }
    }
}

/// The account that was made for a lattice: the seeds of its signing keys, its own seed and its
/// signed claims.
#[derive(Debug, PartialEq, Eq)]
pub struct GeneratedAccount {
    pub signing_keys: Vec<String>,
    pub seed: String,
    pub encoded: String,
}

/// What a [`GeneratedAccount`] says.
#[verifier::ext_equal]
pub struct GeneratedAccountView {
    pub signing_keys: Seq<Seq<char>>,
    pub seed: Seq<char>,
    pub encoded: Seq<char>,
}

impl View for GeneratedAccount {
    type V = GeneratedAccountView;

    open spec fn view(&self) -> GeneratedAccountView {
        GeneratedAccountView {
            signing_keys: self.signing_keys.deep_view(),
            seed: self.seed@,
            encoded: self.encoded@,
        }
    }
}

impl DeepView for GeneratedAccount {
    type V = GeneratedAccountView;

    open spec fn deep_view(&self) -> GeneratedAccountView {
        self@
    }
}

/// A lattice as the generator has completed it, with the account made for it, if one was.
#[derive(Debug, PartialEq, Eq)]
pub struct CreateLatticeResponse {
    pub lattice: Lattice,
    pub account: Option<GeneratedAccount>,
}

/// What a [`CreateLatticeResponse`] says.
#[verifier::ext_equal]
pub struct CreateLatticeResponseView {
    pub lattice: LatticeView,
    pub account: Option<GeneratedAccountView>,
}

impl View for CreateLatticeResponse {
    type V = CreateLatticeResponseView;

    open spec fn view(&self) -> CreateLatticeResponseView {
        CreateLatticeResponseView {
            lattice: self.lattice@,
            account: self.account.deep_view(),
        }
    }
}

/// What kind of failure stopped a lifecycle operation.
#[derive(Clone, Copy, Debug, PartialEq, Eq, Structural)]
pub enum LifecycleErrorKind {
    Internal,
    InvalidArgument,
}

/// The failure of a lifecycle operation.
#[derive(Debug, PartialEq, Eq)]
pub struct LatticeLifecycleError {
    pub kind: LifecycleErrorKind,
    pub message: Option<String>,
}

/// What a [`LatticeLifecycleError`] says.
#[verifier::ext_equal]
pub struct LatticeLifecycleErrorView {
    pub kind: LifecycleErrorKind,
    pub message: Option<Seq<char>>,
}

impl View for LatticeLifecycleError {
    type V = LatticeLifecycleErrorView;

    open spec fn view(&self) -> LatticeLifecycleErrorView {
        LatticeLifecycleErrorView { kind: self.kind, message: self.message.deep_view() }
    }
}

/// A secret as a secret store reveals it.
#[derive(Debug, PartialEq, Eq)]
pub enum SecretValue {
    String(String),
    Bytes(Vec<u8>),
}

/// What a [`SecretValue`] says.
#[verifier::ext_equal]
pub enum SecretValueView {
    String(Seq<char>),
    Bytes(Seq<u8>),
}

impl View for SecretValue {
    type V = SecretValueView;

    open spec fn view(&self) -> SecretValueView {
        match self {
            SecretValue::String(s) => SecretValueView::String(s@),
            SecretValue::Bytes(b) => SecretValueView::Bytes(b@),
        }
    }
}

/// The verdict of an authorizer on a connection.
#[derive(Debug, PartialEq, Eq)]
pub struct Decision {
    pub allowed: bool,
    pub role: Option<String>,
    pub metadata: Option<Vec<(String, String)>>,
}

/// A request to change fields of a lattice.
#[derive(Debug, PartialEq, Eq)]
pub struct LatticeUpdate {
    pub lattice: String,
    pub account: Option<String>,
    pub description: Option<String>,
    pub signing_keys: Option<Vec<String>>,
    pub deletable: Option<bool>,
}

/// What a [`LatticeUpdate`] says.
#[verifier::ext_equal]
pub struct LatticeUpdateView {
    pub lattice: Seq<char>,
    pub account: Option<Seq<char>>,
    pub description: Option<Seq<char>>,
    pub signing_keys: Option<Seq<Seq<char>>>,
    pub deletable: Option<bool>,
}

impl View for LatticeUpdate {
    type V = LatticeUpdateView;

    open spec fn view(&self) -> LatticeUpdateView {
        LatticeUpdateView {
            lattice: self.lattice@,
            account: self.account.deep_view(),
            description: self.description.deep_view(),
            signing_keys: self.signing_keys.deep_view(),
            deletable: self.deletable,
        }
    }
}

/// Whether a service is ready.
#[derive(Debug, PartialEq, Eq)]
pub struct Health {
    pub ready: bool,
    pub message: Option<String>,
}

} // verus!
