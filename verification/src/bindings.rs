//! Lattices of the protobuf interface as lattices of the control interface, and back.
//!
//! Where the control interface has an optional text or list, the protobuf interface has an empty
//! one for a missing one.
use crate::control;
use crate::labels;
use crate::labels::Labels;
use crate::proto;
use vstd::prelude::*;
use vstd::string::*;

verus! {

/// The phase of a number; one that is not specified or not known is taken for provisioning.
pub open spec fn control_phase(number: i32) -> control::LatticePhase {
    if number == proto::LatticePhase::LatticeCreated.number() {
        control::LatticePhase::Created
    } else if number == proto::LatticePhase::LatticeDeleting.number() {
        control::LatticePhase::Deleting
    } else {
        control::LatticePhase::Provisioning
    }
}

/// The number of a phase.
pub open spec fn proto_phase(phase: control::LatticePhase) -> i32 {
    match phase {
        control::LatticePhase::Provisioning => proto::LatticePhase::LatticeProvisioning.number(),
        control::LatticePhase::Created => proto::LatticePhase::LatticeCreated.number(),
        control::LatticePhase::Deleting => proto::LatticePhase::LatticeDeleting.number(),
    }
}

/// A text that may be missing.
pub open spec fn optional_text(s: Seq<char>) -> Option<Seq<char>> {
    if s.len() == 0 {
        None
    } else {
        Some(s)
    }
}

/// A list that may be missing.
pub open spec fn optional_list(l: Seq<Seq<char>>) -> Option<Seq<Seq<char>>> {
    if l.len() == 0 {
        None
    } else {
        Some(l)
    }
}

/// The parts of a lattice of the protobuf interface, those that are missing with nothing set.
pub open spec fn meta_of(lattice: proto::LatticeView) -> proto::MetadataView {
    match lattice.meta {
        Some(meta) => meta,
        None => proto::default_metadata(),
    }
}

/// The parts of a lattice of the protobuf interface, those that are missing with nothing set.
pub open spec fn spec_of(lattice: proto::LatticeView) -> proto::LatticeSpecView {
    match lattice.spec {
        Some(spec) => spec,
        None => proto::default_spec(),
    }
}

/// The phase number of a lattice; it is that of an unspecified phase if there is no status.
pub open spec fn phase_of(lattice: proto::LatticeView) -> i32 {
    match spec_of(lattice).status {
        Some(status) => status.phase,
        None => proto::LatticePhase::LatticeUnspecified.number(),
    }
}

/// `to` is the lattice `from` in the control interface. The labels and annotations are listed in
/// no particular order.
pub open spec fn is_component_lattice(
    from: proto::LatticeView,
    to: control::LatticeView,
) -> bool {
    let meta = meta_of(from);
    let spec = spec_of(from);
    &&& to.metadata.name == meta.name
    &&& to.metadata.version == meta.version
    &&& to.metadata.uid == meta.uid
    &&& labels::lists(to.metadata.labels, meta.labels)
    &&& labels::lists(to.metadata.annotations, meta.annotations)
    &&& to.account == optional_text(spec.account)
    &&& to.signing_keys == optional_list(spec.signing_keys)
    &&& to.description == optional_text(spec.description)
    &&& to.deletable == spec.deletable
    &&& to.status.phase == control_phase(phase_of(from))
}

/// The lattice `from` in the protobuf interface.
pub open spec fn proto_of(from: control::LatticeView) -> proto::LatticeView {
    proto::LatticeView {
        meta: Some(
            proto::MetadataView {
                name: from.metadata.name,
                version: from.metadata.version,
                uid: from.metadata.uid,
                labels: labels::map_of(from.metadata.labels),
                annotations: labels::map_of(from.metadata.annotations),
            },
        ),
        spec: Some(
            proto::LatticeSpecView {
                account: match from.account {
                    Some(account) => account,
                    None => Seq::empty(),
                },
                signing_keys: match from.signing_keys {
                    Some(keys) => keys,
                    None => Seq::empty(),
                },
                description: match from.description {
                    Some(description) => description,
                    None => Seq::empty(),
                },
                status: Some(proto::LatticeStatus { phase: proto_phase(from.status.phase) }),
                deletable: from.deletable,
            },
        ),
    }
}

/// The status of a lattice in the control interface.
pub fn component_status(status: proto::LatticeStatus) -> (r: control::LatticeStatus)
    ensures
        r.phase == control_phase(status.phase),
{
    let phase = match proto::LatticePhase::from_i32(status.phase) {
        Some(phase) => phase,
        None => {
            assert(proto::LatticePhase::LatticeCreated.number() != status.phase);
            assert(proto::LatticePhase::LatticeDeleting.number() != status.phase);
            proto::LatticePhase::LatticeUnspecified
        },
    };
    control::LatticeStatus {
        phase: match phase {
            proto::LatticePhase::LatticeProvisioning => control::LatticePhase::Provisioning,
            proto::LatticePhase::LatticeCreated => control::LatticePhase::Created,
            proto::LatticePhase::LatticeDeleting => control::LatticePhase::Deleting,
            proto::LatticePhase::LatticeUnspecified => control::LatticePhase::Provisioning,
        },
    }
}

/// The status of a lattice in the protobuf interface.
pub fn proto_status(status: control::LatticeStatus) -> (r: proto::LatticeStatus)
    ensures
        r.phase == proto_phase(status.phase),
{
    let phase = match status.phase {
        control::LatticePhase::Provisioning => proto::LatticePhase::LatticeProvisioning,
        control::LatticePhase::Created => proto::LatticePhase::LatticeCreated,
        control::LatticePhase::Deleting => proto::LatticePhase::LatticeDeleting,
    };
    proto::LatticeStatus { phase: phase.to_i32() }
}

/// Metadata in the control interface.
pub fn component_metadata(metadata: proto::Metadata) -> (r: control::Metadata)
    ensures
        r.name@ == metadata.name@,
        r.version@ == metadata.version@,
        r.uid@ == metadata.uid@,
        labels::lists(r.labels.deep_view(), metadata.labels@),
        labels::lists(r.annotations.deep_view(), metadata.annotations@),
{
    control::Metadata {
        name: metadata.name,
        version: metadata.version,
        uid: metadata.uid,
        annotations: metadata.annotations.to_pairs(),
        labels: metadata.labels.to_pairs(),
    }
}

/// Metadata in the protobuf interface.
pub fn proto_metadata(metadata: control::Metadata) -> (r: proto::Metadata)
    ensures
        r@ == proto_of(
            (control::LatticeView {
                metadata: metadata@,
                account: None,
                signing_keys: None,
                description: None,
                deletable: false,
                status: control::LatticeStatus { phase: control::LatticePhase::Provisioning },
            }),
        ).meta->Some_0,
{
    proto::Metadata {
        name: metadata.name,
        version: metadata.version,
        uid: metadata.uid,
        annotations: Labels::from_pairs(metadata.annotations),
        labels: Labels::from_pairs(metadata.labels),
    }
}

/// A text that may be missing.
fn non_empty(s: String) -> (r: Option<String>)
    ensures
        r.deep_view() == optional_text(s@),
{
    if s.as_str().is_empty() {
        None
    } else {
        Some(s)
    }
}

/// A lattice in the control interface.
pub fn component_lattice(lattice: proto::Lattice) -> (r: control::Lattice)
    ensures
        is_component_lattice(lattice@, r@),
{
    let metadata = match lattice.meta {
        Some(meta) => meta,
        None => proto::Metadata::default(),
    };
    let spec = match lattice.spec {
        Some(spec) => spec,
        None => proto::LatticeSpec::default(),
    };
    let status = match spec.status {
        Some(status) => status,
        None => proto::LatticeStatus { phase: proto::LatticePhase::LatticeUnspecified.to_i32() },
    };
    let keys: usize = spec.signing_keys.len();
    assert(spec.signing_keys.deep_view().len() == keys);
    control::Lattice {
        metadata: component_metadata(metadata),
        account: non_empty(spec.account),
        signing_keys: if keys == 0 {
            None
        } else {
            Some(spec.signing_keys)
        },
        description: non_empty(spec.description),
        deletable: spec.deletable,
        status: component_status(status),
    }
}

/// A text that is empty if it is missing.
fn or_empty(s: Option<String>) -> (r: String)
    ensures
        r@ == match s {
            Some(text) => text@,
            None => Seq::empty(),
        },
{
    match s {
        Some(text) => text,
        None => String::new(),
    }
}

/// A lattice in the protobuf interface.
pub fn proto_lattice(lattice: control::Lattice) -> (r: proto::Lattice)
    ensures
        r@ == proto_of(lattice@),
{
    let signing_keys = match lattice.signing_keys {
        Some(keys) => keys,
        None => {
            let none: Vec<String> = Vec::new();
            assert(none.deep_view() =~= Seq::empty());
            none
        },
    };
    proto::Lattice {
        meta: Some(proto_metadata(lattice.metadata)),
        spec: Some(
            proto::LatticeSpec {
                account: or_empty(lattice.account),
                signing_keys,
                description: or_empty(lattice.description),
                status: Some(proto_status(lattice.status)),
                deletable: lattice.deletable,
            },
        ),
    }
}

/// `lattice` with nothing missing: its parts are there, and its phase is one that is known.
pub open spec fn completed(lattice: proto::LatticeView) -> proto::LatticeView {
    proto::LatticeView {
        meta: Some(meta_of(lattice)),
        spec: Some(
            proto::LatticeSpecView {
                status: Some(
                    proto::LatticeStatus { phase: proto_phase(control_phase(phase_of(lattice))) },
                ),
                ..spec_of(lattice)
            },
        ),
    }
}

/// A lattice of the protobuf interface comes back from the control interface with nothing missing
/// any more: the parts that were missing are there, with nothing set, and a phase that is not
/// specified or not known is that of provisioning. One that is complete comes back as it is.
pub proof fn proto_lattice_comes_back(lattice: proto::LatticeView, through: control::LatticeView)
    requires
        is_component_lattice(lattice, through),
    ensures
        proto_of(through) == completed(lattice),
        lattice.meta is Some && lattice.spec is Some && lattice.spec->Some_0.status is Some && 1
            <= phase_of(lattice) <= 3 ==> proto_of(through) == lattice,
{
    let spec = spec_of(lattice);
    if spec.account.len() == 0 {
        assert(spec.account =~= Seq::empty());
    }
    if spec.description.len() == 0 {
        assert(spec.description =~= Seq::empty());
    }
    if spec.signing_keys.len() == 0 {
        assert(spec.signing_keys =~= Seq::empty());
    }
    assert(proto_of(through).spec->Some_0 =~= completed(lattice).spec->Some_0);
    assert(proto_of(through).meta->Some_0 =~= meta_of(lattice));
}

/// An optional text that has passed through the protobuf interface: an empty one is missing.
pub open spec fn text_back(text: Option<Seq<char>>) -> Option<Seq<char>> {
    match text {
        Some(s) => optional_text(s),
        None => None,
    }
}

/// An optional list that has passed through the protobuf interface: an empty one is missing.
pub open spec fn list_back(list: Option<Seq<Seq<char>>>) -> Option<Seq<Seq<char>>> {
    match list {
        Some(l) => optional_list(l),
        None => None,
    }
}

/// A lattice of the control interface comes back as it is from the protobuf interface, but that an
/// empty account, description or list of signing keys is missing then. The labels and annotations
/// are those of the map that they stand for; if their keys are distinct, they are the same pairs,
/// maybe in another order.
pub proof fn component_lattice_comes_back(lattice: control::LatticeView, back: control::LatticeView)
    requires
        is_component_lattice(proto_of(lattice), back),
    ensures
        back == (control::LatticeView {
            metadata: control::MetadataView {
                labels: back.metadata.labels,
                annotations: back.metadata.annotations,
                ..lattice.metadata
            },
            account: text_back(lattice.account),
            signing_keys: list_back(lattice.signing_keys),
            description: text_back(lattice.description),
            ..lattice
        }),
        labels::lists(back.metadata.labels, labels::map_of(lattice.metadata.labels)),
        labels::lists(back.metadata.annotations, labels::map_of(lattice.metadata.annotations)),
        labels::distinct(lattice.metadata.labels) ==> back.metadata.labels.to_multiset()
            == lattice.metadata.labels.to_multiset(),
        labels::distinct(lattice.metadata.annotations) ==> back.metadata.annotations.to_multiset()
            == lattice.metadata.annotations.to_multiset(),
{
    if labels::distinct(lattice.metadata.labels) {
        labels::labels_keep_distinct_pairs(lattice.metadata.labels, back.metadata.labels);
    }
    if labels::distinct(lattice.metadata.annotations) {
        labels::labels_keep_distinct_pairs(
            lattice.metadata.annotations,
            back.metadata.annotations,
        );
    }
}

} // verus!
