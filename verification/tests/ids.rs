use note_actions::ids::{NoteId, NoteKey, Pubkey};

fn counting_bytes() -> [u8; 32] {
    let mut bytes = [0u8; 32];
    for (i, b) in bytes.iter_mut().enumerate() {
        *b = i as u8;
    }
    bytes
}

#[test]
fn note_id_hex_is_lower_case_two_digits_per_byte() {
    let id = NoteId::new(counting_bytes());
    assert_eq!(
        id.hex(),
        "000102030405060708090a0b0c0d0e0f101112131415161718191a1b1c1d1e1f"
    );
}

#[test]
fn pubkey_hex_writes_high_half_first() {
    let mut bytes = [0u8; 32];
    bytes[0] = 0xf1;
    bytes[31] = 0x9c;
    let pk = Pubkey::new(bytes);
    let text = pk.hex();
    assert_eq!(text.len(), 64);
    assert_eq!(&text[0..2], "f1");
    assert_eq!(&text[2..62], "0".repeat(60));
    assert_eq!(&text[62..64], "9c");
}

#[test]
fn hex_of_all_ones() {
    assert_eq!(NoteId::new([0xff; 32]).hex(), "ff".repeat(32));
    assert_eq!(Pubkey::new([0xab; 32]).hex(), "ab".repeat(32));
}

#[test]
fn same_compares_every_byte() {
    let a = Pubkey::new([7; 32]);
    let mut other = [7u8; 32];
    assert!(a.same(&Pubkey::new(other)));
    other[31] = 8;
    assert!(!a.same(&Pubkey::new(other)));
    other[31] = 7;
    other[0] = 0;
    assert!(!a.same(&Pubkey::new(other)));

    let n = NoteId::new([1; 32]);
    assert!(n.same(&NoteId::new([1; 32])));
    assert!(!n.same(&NoteId::new([2; 32])));
    assert_eq!(n.bytes(), &[1u8; 32]);
}

#[test]
fn note_key_keeps_its_number() {
    assert_eq!(NoteKey::new(42).as_u64(), 42);
    assert_eq!(NoteKey::new(u64::MAX).as_u64(), u64::MAX);
    assert_eq!(NoteKey::new(5), NoteKey { key: 5 });
}
