//! Lattices as bytes: the form in which the lattice service keeps them in its bucket.
use crate::control;
use crate::control::{Lattice, LatticePhase, LatticeStatus, Metadata};
use crate::text;
use crate::text::{concatenate, copy_optional_list, copy_pairs, copy_text, number};
use vstd::prelude::*;
use vstd::string::*;

verus! {

/// The fields of a lattice, with its phase as a number.
#[derive(Debug, PartialEq, Eq)]
pub struct Record {
    pub name: String,
    pub version: String,
    pub uid: String,
    pub labels: Vec<(String, String)>,
    pub annotations: Vec<(String, String)>,
    pub account: Option<String>,
    pub signing_keys: Option<Vec<String>>,
    pub description: Option<String>,
    pub deletable: bool,
    pub phase: u32,
}

/// What a [`Record`] says.
#[verifier::ext_equal]
pub struct RecordView {
    pub name: Seq<char>,
    pub version: Seq<char>,
    pub uid: Seq<char>,
    pub labels: Seq<(Seq<char>, Seq<char>)>,
    pub annotations: Seq<(Seq<char>, Seq<char>)>,
    pub account: Option<Seq<char>>,
    pub signing_keys: Option<Seq<Seq<char>>>,
    pub description: Option<Seq<char>>,
    pub deletable: bool,
    pub phase: u32,
}

impl View for Record {
    type V = RecordView;

    open spec fn view(&self) -> RecordView {
        RecordView {
            name: self.name@,
            version: self.version@,
            uid: self.uid@,
            labels: self.labels.deep_view(),
            annotations: self.annotations.deep_view(),
            account: self.account.deep_view(),
            signing_keys: self.signing_keys.deep_view(),
            description: self.description.deep_view(),
            deletable: self.deletable,
            phase: self.phase,
        }
    }
}

/// What `wrpc_pack::pack` makes of the tuple of a record's fields: its bytes, or the text of its
/// error.
pub uninterp spec fn packed(record: RecordView) -> Result<Seq<u8>, Seq<char>>;

/// What `wrpc_pack::unpack` makes of bytes: the tuple of a record's fields, or the text of its
/// error.
pub uninterp spec fn unpacked(bytes: Seq<u8>) -> Result<RecordView, Seq<char>>;

/// `wrpc_pack::pack` of the tuple of a record's fields: the bytes are such that unpacking them
/// gives the record. It fails on a text or a list whose length does not fit in 32 bits.
#[verifier::external_body]
fn pack_record(record: Record) -> (r: Result<Vec<u8>, String>)
    ensures
        match r {
            Ok(bytes) => packed(record@) == Ok::<Seq<u8>, Seq<char>>(bytes@) && unpacked(bytes@)
                == Ok::<RecordView, Seq<char>>(record@),
            Err(e) => packed(record@) == Err::<Seq<u8>, Seq<char>>(e@),
        },
{
    let r = record;
    let metadata = (r.name, r.version, r.uid, r.labels, r.annotations);
    let fields = (metadata, r.account, r.signing_keys, r.description, r.deletable, (r.phase,));
    let mut buf = bytes::BytesMut::new();
    match wrpc_pack::pack(fields, &mut buf) {
        Ok(()) => Ok(buf.to_vec()),
        Err(e) => Err(e.to_string()),
    }
}

/// The tuple of a record's fields.
type Fields = (
    (String, String, String, Vec<(String, String)>, Vec<(String, String)>),
    Option<String>,
    Option<Vec<String>>,
    Option<String>,
    bool,
    (u32,),
);

/// `wrpc_pack::unpack` of the tuple of a record's fields. Bytes that announce a list for which
/// there is no memory end the program, as every allocation that fails does.
#[verifier::external_body]
fn unpack_record(bytes: &[u8]) -> (r: Result<Record, String>)
    ensures
        match r {
            Ok(record) => unpacked(bytes@) == Ok::<RecordView, Seq<char>>(record@),
            Err(e) => unpacked(bytes@) == Err::<RecordView, Seq<char>>(e@),
        },
{
    let mut buf = bytes::BytesMut::from(bytes);
    let (metadata, account, signing_keys, description, deletable, (phase,)): Fields =
        match wrpc_pack::unpack(&mut buf) {
            Ok(fields) => fields,
            Err(e) => return Err(std::string::ToString::to_string(&e)),
        };
    let (name, version, uid, labels, annotations) = metadata;
    Ok(Record {
        name, version, uid, labels, annotations,
        account, signing_keys, description, deletable, phase,
    })
}

/// The number of a phase.
pub open spec fn phase_number(phase: LatticePhase) -> u32 {
    match phase {
        LatticePhase::Provisioning => 0,
        LatticePhase::Created => 1,
        LatticePhase::Deleting => 2,
    }
}

/// The record of a lattice.
pub open spec fn record_of(lattice: control::LatticeView) -> RecordView {
    RecordView {
        name: lattice.metadata.name,
        version: lattice.metadata.version,
        uid: lattice.metadata.uid,
        labels: lattice.metadata.labels,
        annotations: lattice.metadata.annotations,
        account: lattice.account,
        signing_keys: lattice.signing_keys,
        description: lattice.description,
        deletable: lattice.deletable,
        phase: phase_number(lattice.status.phase),
    }
}

/// The phase with a number, if there is one.
pub open spec fn phase_of(number: u32) -> Option<LatticePhase> {
    match number {
        0 => Some(LatticePhase::Provisioning),
        1 => Some(LatticePhase::Created),
        2 => Some(LatticePhase::Deleting),
        _ => None,
    }
}

/// The lattice of a record, or the text of what is wrong with the record: there is no phase with
/// its number.
pub open spec fn lattice_of(record: RecordView) -> Result<control::LatticeView, Seq<char>> {
    match phase_of(record.phase) {
        Some(phase) => Ok(
            control::LatticeView {
                metadata: control::MetadataView {
                    name: record.name,
                    version: record.version,
                    uid: record.uid,
                    labels: record.labels,
                    annotations: record.annotations,
                },
                account: record.account,
                signing_keys: record.signing_keys,
                description: record.description,
                deletable: record.deletable,
                status: LatticeStatus { phase },
            },
        ),
        None => Err(
            "unknown enum discriminant `"@ + text::decimal(record.phase as nat) + "`"@,
        ),
    }
}

/// The lattice in bytes, or the text of what is wrong with them.
pub open spec fn lattice_in(bytes: Seq<u8>) -> Result<control::LatticeView, Seq<char>> {
    match unpacked(bytes) {
        Ok(record) => lattice_of(record),
        Err(e) => Err(e),
    }
}

/// The record of a lattice.
pub fn to_record(lattice: &Lattice) -> (r: Record)
    ensures
        r@ == record_of(lattice@),
{
    Record {
        name: lattice.metadata.name.clone(),
        version: lattice.metadata.version.clone(),
        uid: lattice.metadata.uid.clone(),
        labels: copy_pairs(&lattice.metadata.labels),
        annotations: copy_pairs(&lattice.metadata.annotations),
        account: copy_text(&lattice.account),
        signing_keys: copy_optional_list(&lattice.signing_keys),
        description: copy_text(&lattice.description),
        deletable: lattice.deletable,
        phase: match lattice.status.phase {
            LatticePhase::Provisioning => 0,
            LatticePhase::Created => 1,
            LatticePhase::Deleting => 2,
        },
    }
}

/// The lattice of a record.
pub fn from_record(record: Record) -> (r: Result<Lattice, String>)
    ensures
        match lattice_of(record@) {
            Ok(lattice) => r matches Ok(l) && l@ == lattice,
            Err(e) => r matches Err(text) && text@ == e,
        },
{
    let phase = match record.phase {
        0 => LatticePhase::Provisioning,
        1 => LatticePhase::Created,
        2 => LatticePhase::Deleting,
        n => {
            let start = concatenate("unknown enum discriminant `", number(n).as_str());
            return Err(concatenate(start.as_str(), "`"));
        },
    };
    Ok(
        Lattice {
            metadata: Metadata {
                name: record.name,
                version: record.version,
                uid: record.uid,
                labels: record.labels,
                annotations: record.annotations,
            },
            account: record.account,
            signing_keys: record.signing_keys,
            description: record.description,
            deletable: record.deletable,
            status: LatticeStatus { phase },
        },
    )
}

/// The bytes of a lattice. Reading them gives the lattice back.
pub fn pack(lattice: &Lattice) -> (r: Result<Vec<u8>, String>)
    ensures
        match packed(record_of(lattice@)) {
            Ok(bytes) => r matches Ok(b) && b@ == bytes && lattice_in(bytes) == Ok::<
                control::LatticeView,
                Seq<char>,
            >(lattice@),
            Err(e) => r matches Err(text) && text@ == e,
        },
{
    proof {
        record_reads_back(lattice@);
    }
    pack_record(to_record(lattice))
}

/// The lattice in bytes, or the text of what is wrong with them.
pub fn unpack(bytes: &[u8]) -> (r: Result<Lattice, String>)
    ensures
        match lattice_in(bytes@) {
            Ok(lattice) => r matches Ok(l) && l@ == lattice,
            Err(e) => r matches Err(text) && text@ == e,
        },
{
    match unpack_record(bytes) {
        Ok(record) => from_record(record),
        Err(e) => Err(e),
    }
}

/// The record of a lattice is that of no other: the lattice of it is the lattice itself.
pub proof fn record_reads_back(lattice: control::LatticeView)
    ensures
        lattice_of(record_of(lattice)) == Ok::<control::LatticeView, Seq<char>>(lattice),
{
    assert(lattice_of(record_of(lattice))->Ok_0 =~= lattice);
}

} // verus!
