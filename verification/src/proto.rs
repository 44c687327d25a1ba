//! The records of the protobuf interface.
use crate::labels::Labels;
use crate::text::copy_list;
use vstd::prelude::*;

verus! {

/// How far a lattice has come in its life.
#[derive(Clone, Copy, Debug, PartialEq, Eq, Structural)]
pub enum LatticePhase {
    LatticeUnspecified,
    LatticeProvisioning,
    LatticeCreated,
    LatticeDeleting,
}

impl LatticePhase {
    /// The number of the phase.
    pub open spec fn number(self) -> i32 {
        match self {
            LatticePhase::LatticeUnspecified => 0,
            LatticePhase::LatticeProvisioning => 1,
            LatticePhase::LatticeCreated => 2,
            LatticePhase::LatticeDeleting => 3,
        }
    }

    /// The number of the phase.
    pub fn to_i32(self) -> (r: i32)
        ensures
            r == self.number(),
    {
        match self {
            LatticePhase::LatticeUnspecified => 0,
            LatticePhase::LatticeProvisioning => 1,
            LatticePhase::LatticeCreated => 2,
            LatticePhase::LatticeDeleting => 3,
        }
    }

    /// The phase with a number, if there is one.
    pub fn from_i32(value: i32) -> (r: Option<LatticePhase>)
        ensures
            match r {
                Some(phase) => phase.number() == value,
                None => {
                    &&& LatticePhase::LatticeUnspecified.number() != value
                    &&& LatticePhase::LatticeProvisioning.number() != value
                    &&& LatticePhase::LatticeCreated.number() != value
                    &&& LatticePhase::LatticeDeleting.number() != value
                },
            },
    {
        match value {
            0 => Some(LatticePhase::LatticeUnspecified),
            1 => Some(LatticePhase::LatticeProvisioning),
            2 => Some(LatticePhase::LatticeCreated),
            3 => Some(LatticePhase::LatticeDeleting),
            _ => None,
        }
    }
}

/// The status of a lattice, with its phase as a number.
#[derive(Clone, Copy, Debug, PartialEq, Eq, Structural)]
pub struct LatticeStatus {
    pub phase: i32,
}

/// The name of a lattice, its version and what its owners have attached to it.
#[derive(Debug)]
pub struct Metadata {
    pub name: String,
    pub version: String,
    pub uid: String,
    pub labels: Labels,
    pub annotations: Labels,
}

/// What a lattice is to be and how far it has come.
#[derive(Debug)]
pub struct LatticeSpec {
    pub account: String,
    pub signing_keys: Vec<String>,
    pub description: String,
    pub status: Option<LatticeStatus>,
    pub deletable: bool,
}

/// A lattice.
#[derive(Debug)]
pub struct Lattice {
    pub meta: Option<Metadata>,
    pub spec: Option<LatticeSpec>,
}

/// Values for the fields of a lattice.
#[derive(Debug)]
pub struct LatticeUpdate {
    pub description: String,
    pub deletable: bool,
    pub account: String,
    pub signing_keys: Vec<String>,
}

/// What a [`Metadata`] says.
#[verifier::ext_equal]
pub struct MetadataView {
    pub name: Seq<char>,
    pub version: Seq<char>,
    pub uid: Seq<char>,
    pub labels: Map<Seq<char>, Seq<char>>,
    pub annotations: Map<Seq<char>, Seq<char>>,
}

/// What a [`LatticeSpec`] says.
#[verifier::ext_equal]
pub struct LatticeSpecView {
    pub account: Seq<char>,
    pub signing_keys: Seq<Seq<char>>,
    pub description: Seq<char>,
    pub status: Option<LatticeStatus>,
    pub deletable: bool,
}

/// What a [`Lattice`] says.
#[verifier::ext_equal]
pub struct LatticeView {
    pub meta: Option<MetadataView>,
    pub spec: Option<LatticeSpecView>,
}

/// What a [`LatticeUpdate`] says.
#[verifier::ext_equal]
pub struct LatticeUpdateView {
    pub description: Seq<char>,
    pub deletable: bool,
    pub account: Seq<char>,
    pub signing_keys: Seq<Seq<char>>,
}

impl View for Metadata {
    type V = MetadataView;

    open spec fn view(&self) -> MetadataView {
        MetadataView {
            name: self.name@,
            version: self.version@,
            uid: self.uid@,
            labels: self.labels@,
            annotations: self.annotations@,
        }
    }
}

impl DeepView for Metadata {
    type V = MetadataView;

    open spec fn deep_view(&self) -> MetadataView {
        self@
    }
}

impl View for LatticeSpec {
    type V = LatticeSpecView;

    open spec fn view(&self) -> LatticeSpecView {
        LatticeSpecView {
            account: self.account@,
            signing_keys: self.signing_keys.deep_view(),
            description: self.description@,
            status: self.status,
            deletable: self.deletable,
        }
    }
}

impl DeepView for LatticeSpec {
    type V = LatticeSpecView;

    open spec fn deep_view(&self) -> LatticeSpecView {
        self@
    }
}

impl View for Lattice {
    type V = LatticeView;

    open spec fn view(&self) -> LatticeView {
        LatticeView { meta: self.meta.deep_view(), spec: self.spec.deep_view() }
    }
}

impl DeepView for Lattice {
    type V = LatticeView;

    open spec fn deep_view(&self) -> LatticeView {
        self@
    }
}

impl View for LatticeUpdate {
    type V = LatticeUpdateView;

    open spec fn view(&self) -> LatticeUpdateView {
        LatticeUpdateView {
            description: self.description@,
            deletable: self.deletable,
            account: self.account@,
            signing_keys: self.signing_keys.deep_view(),
        }
    }
}

/// Metadata in which nothing is set.
pub open spec fn default_metadata() -> MetadataView {
    MetadataView {
        name: Seq::empty(),
        version: Seq::empty(),
        uid: Seq::empty(),
        labels: Map::empty(),
        annotations: Map::empty(),
    }
}

/// A specification in which nothing is set.
pub open spec fn default_spec() -> LatticeSpecView {
    LatticeSpecView {
        account: Seq::empty(),
        signing_keys: Seq::empty(),
        description: Seq::empty(),
        status: None,
        deletable: false,
    }
}

impl Default for Metadata {
    fn default() -> (r: Self)
        ensures
            r@ == default_metadata(),
    {
        Metadata {
            name: String::new(),
            version: String::new(),
            uid: String::new(),
            labels: Labels::new(),
            annotations: Labels::new(),
        }
    }
}

impl Default for LatticeSpec {
    fn default() -> (r: Self)
        ensures
            r@ == default_spec(),
    {
        let signing_keys: Vec<String> = Vec::new();
        assert(signing_keys.deep_view() =~= Seq::empty());
        LatticeSpec {
            account: String::new(),
            signing_keys,
            description: String::new(),
            status: None,
            deletable: false,
        }
    }
}

impl Clone for Metadata {
    fn clone(&self) -> (r: Self)
        ensures
            r@ == self@,
    {
        Metadata {
            name: self.name.clone(),
            version: self.version.clone(),
            uid: self.uid.clone(),
            labels: self.labels.clone(),
            annotations: self.annotations.clone(),
        }
    }
}

impl Clone for LatticeSpec {
    fn clone(&self) -> (r: Self)
        ensures
            r@ == self@,
    {
        LatticeSpec {
            account: self.account.clone(),
            signing_keys: copy_list(&self.signing_keys),
            description: self.description.clone(),
            status: self.status,
            deletable: self.deletable,
        }
    }
}

impl Clone for Lattice {
    fn clone(&self) -> (r: Self)
        ensures
            r@ == self@,
    {
        Lattice {
            meta: match &self.meta {
                Some(meta) => Some(meta.clone()),
                None => None,
            },
            spec: match &self.spec {
                Some(spec) => Some(spec.clone()),
                None => None,
            },
        }
    }
}

} // verus!
