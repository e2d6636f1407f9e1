use quantum_tunnel::proto::{push_bool_field, push_bytes_field, push_message_field, push_uint_field, push_varint};
use quantum_tunnel::rlp::{be_bytes, push_rlp_string, push_rlp_uint, rlp_list_of};

#[test]
fn varint_values() {
    let mut b = Vec::new();
    push_varint(&mut b, 0);
    push_varint(&mut b, 127);
    push_varint(&mut b, 300);
    assert_eq!(b, vec![0x00, 0x7f, 0xac, 0x02]);
    let mut m = Vec::new();
    push_varint(&mut m, u64::MAX);
    assert_eq!(m, vec![0xff, 0xff, 0xff, 0xff, 0xff, 0xff, 0xff, 0xff, 0xff, 0x01]);
}

#[test]
fn default_scalars_are_left_out() {
    let mut b = Vec::new();
    push_uint_field(&mut b, 3, 0);
    push_bool_field(&mut b, 3, false);
    push_bytes_field(&mut b, 2, &Vec::new());
    assert!(b.is_empty());
    push_uint_field(&mut b, 3, 150);
    push_bool_field(&mut b, 1, true);
    push_bytes_field(&mut b, 2, &vec![7, 8]);
    push_message_field(&mut b, 5, &Vec::new());
    assert_eq!(b, vec![0x18, 0x96, 0x01, 0x08, 0x01, 0x12, 0x02, 7, 8, 0x2a, 0x00]);
}

#[test]
fn rlp_strings_and_integers() {
    assert_eq!(be_bytes(0), Vec::<u8>::new());
    assert_eq!(be_bytes(0x0400), vec![0x04, 0x00]);
    let mut b = Vec::new();
    push_rlp_uint(&mut b, 0);
    push_rlp_uint(&mut b, 15);
    push_rlp_uint(&mut b, 1024);
    push_rlp_string(&mut b, &b"dog".to_vec());
    assert_eq!(b, vec![0x80, 0x0f, 0x82, 0x04, 0x00, 0x83, b'd', b'o', b'g']);
}

#[test]
fn rlp_long_string_and_list() {
    let long = vec![0x61u8; 56];
    let mut b = Vec::new();
    push_rlp_string(&mut b, &long);
    assert_eq!(&b[..2], &[0xb8, 56]);
    assert_eq!(b.len(), 58);
    let mut items = Vec::new();
    push_rlp_string(&mut items, &b"cat".to_vec());
    push_rlp_string(&mut items, &b"dog".to_vec());
    assert_eq!(rlp_list_of(&items), vec![0xc8, 0x83, b'c', b'a', b't', 0x83, b'd', b'o', b'g']);
    assert_eq!(rlp_list_of(&Vec::new()), vec![0xc0]);
}

use quantum_tunnel::proto::leading_field;
use quantum_tunnel::wire::CeloWrappedHeader;

#[test]
fn header_reads_back_from_update_payload() {
    let rlp: Vec<u8> = (0u8..200).collect();
    let h = CeloWrappedHeader { number: 7, header_rlp: rlp.clone(), initial_state_entry_rlp: vec![0x05] };
    assert_eq!(leading_field(&h.wasm_header()), Some(rlp));
    let empty = CeloWrappedHeader { number: 7, header_rlp: Vec::new(), initial_state_entry_rlp: Vec::new() };
    assert_eq!(leading_field(&empty.wasm_header()), Some(Vec::new()));
}

#[test]
fn initial_data_reads_back_from_consensus_state() {
    let h = CeloWrappedHeader { number: 1, header_rlp: vec![0xab], initial_state_entry_rlp: vec![0x01, 0x02] };
    let cs = h.consensus_state(&vec![0x0a, 0x0b], 1_600_000_000);
    assert_eq!(leading_field(&cs), Some(vec![0xc5, 0x81, 0xab, 0x82, 0x01, 0x02]));
}

#[test]
fn leading_field_cut_short() {
    assert_eq!(leading_field(&vec![0x0a, 0x05, 1, 2]), None);
    assert_eq!(leading_field(&vec![0x0a]), None);
    assert_eq!(leading_field(&vec![0x0a, 0x80]), None);
    assert_eq!(leading_field(&vec![0x0a, 0x02, 9, 8, 7]), Some(vec![9, 8]));
    assert_eq!(leading_field(&vec![0x12, 0x00]), Some(Vec::new()));
}
