//! Lattices as bytes.
use wasmcloud_hub::control::{Lattice, LatticePhase, LatticeStatus, Metadata};
use wasmcloud_hub::text::number;
use wasmcloud_hub::wire::{from_record, pack, to_record, unpack};

fn plain(phase: LatticePhase) -> Lattice {
    Lattice {
        metadata: Metadata {
            name: "test".to_string(),
            version: "".to_string(),
            uid: "u".to_string(),
            labels: Vec::new(),
            annotations: Vec::new(),
        },
        account: None,
        signing_keys: None,
        description: None,
        deletable: false,
        status: LatticeStatus { phase },
    }
}

fn full() -> Lattice {
    Lattice {
        metadata: Metadata {
            name: "näme".to_string(),
            version: "1".to_string(),
            uid: "2".to_string(),
            labels: vec![("a".to_string(), "b".to_string())],
            annotations: vec![
                ("c".to_string(), "d".to_string()),
                ("e".to_string(), "".to_string()),
            ],
        },
        account: Some("ACC".to_string()),
        signing_keys: Some(vec!["K".to_string(), "L".to_string()]),
        description: Some("".to_string()),
        deletable: true,
        status: LatticeStatus {
            phase: LatticePhase::Deleting,
        },
    }
}

#[test]
fn a_lattice_is_packed_field_by_field() {
    let bytes = pack(&plain(LatticePhase::Created)).unwrap();
    assert_eq!(
        bytes,
        vec![4, b't', b'e', b's', b't', 0, 1, b'u', 0, 0, 0, 0, 0, 0, 1]
    );
    let bytes = pack(&full()).unwrap();
    assert_eq!(
        bytes,
        vec![
            5, b'n', 0xc3, 0xa4, b'm', b'e', 1, b'1', 1, b'2', 1, 1, b'a', 1, b'b', 2, 1, b'c', 1,
            b'd', 1, b'e', 0, 1, 3, b'A', b'C', b'C', 1, 2, 1, b'K', 1, b'L', 1, 0, 1, 2
        ]
    );
}

#[test]
fn packed_lattices_read_back() {
    for lattice in [
        plain(LatticePhase::Provisioning),
        plain(LatticePhase::Created),
        plain(LatticePhase::Deleting),
        full(),
    ] {
        let bytes = pack(&lattice).unwrap();
        assert_eq!(unpack(&bytes), Ok(lattice));
    }
}

#[test]
fn records_read_back() {
    let record = to_record(&full());
    assert_eq!(record.phase, 2);
    assert_eq!(from_record(record), Ok(full()));
}

#[test]
fn unknown_phases_are_refused() {
    let mut record = to_record(&full());
    record.phase = 3;
    assert_eq!(
        from_record(record),
        Err("unknown enum discriminant `3`".to_string())
    );
    let mut bytes = pack(&plain(LatticePhase::Created)).unwrap();
    bytes[14] = 17;
    assert_eq!(
        unpack(&bytes),
        Err("unknown enum discriminant `17`".to_string())
    );
}

#[test]
fn bytes_that_are_no_lattice_are_refused() {
    assert_eq!(unpack(&[]), Err("buffer is incomplete".to_string()));
    assert_eq!(unpack(&[4, b't']), Err("buffer is incomplete".to_string()));
    let mut bytes = pack(&plain(LatticePhase::Created)).unwrap();
    bytes[10] = 9;
    assert_eq!(
        unpack(&bytes),
        Err("invalid option status byte value `9`".to_string())
    );
}

#[test]
fn numbers_are_decimal() {
    assert_eq!(number(0), "0");
    assert_eq!(number(9), "9");
    assert_eq!(number(10), "10");
    assert_eq!(number(4294967295), "4294967295");
}
