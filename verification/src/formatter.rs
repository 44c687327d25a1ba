//! Requests to the lattice service on plain messages, made from arguments.
use crate::proto;
use crate::proto::{Lattice, LatticeSpec, LatticeUpdate, Metadata};
use vstd::prelude::*;
use vstd::string::*;

verus! {

/// The lattice in a request to add one.
pub fn add_request(name: String, description: String, deletable: bool) -> (r: Lattice)
    ensures
        r@ == (proto::LatticeView {
            meta: Some(proto::MetadataView { name: name@, ..proto::default_metadata() }),
            spec: Some(
                proto::LatticeSpecView {
                    description: description@,
                    deletable,
                    ..proto::default_spec()
                },
            ),
        }),
{
    let mut meta = Metadata::default();
    meta.name = name;
    let mut spec = LatticeSpec::default();
    spec.description = description;
    spec.deletable = deletable;
    Lattice { meta: Some(meta), spec: Some(spec) }
}

/// A text that may be missing, as a field of a message has it.
pub open spec fn text_or_empty(text: Option<Seq<char>>) -> Seq<char> {
    match text {
        Some(t) => t,
        None => Seq::empty(),
    }
}

/// The values in a request to change a lattice.
pub open spec fn values_of(
    description: Option<Seq<char>>,
    deletable: Option<bool>,
    account: Option<Seq<char>>,
) -> proto::LatticeUpdateView {
    proto::LatticeUpdateView {
        description: text_or_empty(description),
        deletable: deletable == Some(true),
        account: text_or_empty(account),
        signing_keys: Seq::empty(),
    }
}

/// The paths in a request to change a lattice: one for each field that is given.
pub open spec fn paths_of(
    description: Option<Seq<char>>,
    deletable: Option<bool>,
    account: Option<Seq<char>>,
) -> Seq<Seq<char>> {
    let first = if description is Some {
        seq!["spec.description"@]
    } else {
        Seq::empty()
    };
    let second = if deletable is Some {
        first.push("spec.deletable"@)
    } else {
        first
    };
    if account is Some {
        second.push("spec.account"@)
    } else {
        second
    }
}

/// The values and the paths in a request to change a lattice.
pub fn update_request(
    description: Option<String>,
    deletable: Option<bool>,
    account: Option<String>,
) -> (r: (LatticeUpdate, Vec<String>))
    ensures
        r.0@ == values_of(description.deep_view(), deletable, account.deep_view()),
        r.1.deep_view() == paths_of(description.deep_view(), deletable, account.deep_view()),
{
    let mut paths: Vec<String> = Vec::new();
    assert(paths.deep_view() =~= Seq::empty());
    if description.is_some() {
        paths.push("spec.description".to_owned());
        assert(paths.deep_view() =~= seq!["spec.description"@]);
    }
    let ghost first = paths.deep_view();
    if deletable.is_some() {
        paths.push("spec.deletable".to_owned());
        assert(paths.deep_view() =~= first.push("spec.deletable"@));
    }
    let ghost second = paths.deep_view();
    if account.is_some() {
        paths.push("spec.account".to_owned());
        assert(paths.deep_view() =~= second.push("spec.account"@));
    }
    let signing_keys: Vec<String> = Vec::new();
    assert(signing_keys.deep_view() =~= Seq::empty());
    let update = LatticeUpdate {
        description: match description {
            Some(text) => text,
            None => String::new(),
        },
        deletable: match deletable {
            Some(deletable) => deletable,
            None => false,
        },
        account: match account {
            Some(text) => text,
            None => String::new(),
        },
        signing_keys,
    };
    (update, paths)
}

} // verus!
