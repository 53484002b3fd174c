//! Identifiers: public keys, note ids and the local keys of stored notes.

use vstd::prelude::*;

verus! {

/// The sixteen lower-case hexadecimal digits, by value.
pub open spec fn hex_digits() -> Seq<char> {
    seq!['0', '1', '2', '3', '4', '5', '6', '7', '8', '9', 'a', 'b', 'c', 'd', 'e', 'f']
}

/// Lower-case hexadecimal text of `bytes`: two digits per byte, the high
/// half first.
pub open spec fn hex_of(bytes: Seq<u8>) -> Seq<char> {
    Seq::new(
        2 * bytes.len(),
        |i: int| if i % 2 == 0 {
            hex_digits()[bytes[i / 2] as int / 16]
        } else {
            hex_digits()[bytes[i / 2] as int % 16]
        },
    )
}

/// Calls `hex::encode`, which walks the bytes in order and writes for each
/// one the digit of its high four bits and then the digit of its low four
/// bits, taken from the table `0123456789abcdef`.
#[verifier::external_body]
fn hex_encode(bytes: &[u8; 32]) -> (text: String)
    ensures
        text@ == hex_of(bytes@),
{
    hex::encode(bytes)
}

/// Whether two 32-byte strings hold the same bytes.
fn same_bytes(a: &[u8; 32], b: &[u8; 32]) -> (same: bool)
    ensures
        same == (*a == *b),
{
    broadcast use vstd::array::group_array_axioms;

    let mut i: usize = 0;
    while i < 32
        invariant
            i <= 32,
            forall|j: int| 0 <= j < i ==> a[j] == b[j],
        decreases 32 - i,
    {
        if a[i] != b[i] {
            return false;
        }
        i = i + 1;
    }
    assert(*a =~= *b);
    true
}

/// A 32-byte public key.
#[derive(Clone, Copy, Debug, PartialEq, Eq, Hash)]
pub struct Pubkey {
    pub bytes: [u8; 32],
}

impl Pubkey {
    pub fn new(bytes: [u8; 32]) -> (pk: Pubkey)
        ensures
            pk.bytes == bytes,
    {
        Pubkey { bytes }
    }

    pub fn bytes(&self) -> (bytes: &[u8; 32])
        ensures
            *bytes == self.bytes,
    {
        &self.bytes
    }

    /// The key as 64 lower-case hexadecimal digits.
    pub fn hex(&self) -> (text: String)
        ensures
            text@ == hex_of(self.bytes@),
    {
        hex_encode(&self.bytes)
    }

    /// Whether `other` is the same key.
    pub fn same(&self, other: &Pubkey) -> (same: bool)
        ensures
            same == (*self == *other),
    {
        same_bytes(&self.bytes, &other.bytes)
    }
}

/// The 32-byte id of a note.
#[derive(Clone, Copy, Debug, PartialEq, Eq, Hash)]
pub struct NoteId {
    pub bytes: [u8; 32],
}

impl NoteId {
    pub fn new(bytes: [u8; 32]) -> (id: NoteId)
        ensures
            id.bytes == bytes,
    {
        NoteId { bytes }
    }

    pub fn bytes(&self) -> (bytes: &[u8; 32])
        ensures
            *bytes == self.bytes,
    {
        &self.bytes
    }

    /// The id as 64 lower-case hexadecimal digits.
    pub fn hex(&self) -> (text: String)
        ensures
            text@ == hex_of(self.bytes@),
    {
        hex_encode(&self.bytes)
    }

    /// Whether `other` is the same id.
    pub fn same(&self, other: &NoteId) -> (same: bool)
        ensures
            same == (*self == *other),
    {
        same_bytes(&self.bytes, &other.bytes)
    }
}

/// The key under which the note database stores one note.
#[derive(Clone, Copy, Debug, PartialEq, Eq, Structural, PartialOrd, Ord, Hash)]
pub struct NoteKey {
    pub key: u64,
}

impl NoteKey {
    pub fn new(key: u64) -> (k: NoteKey)
        ensures
            k.key == key,
    {
        NoteKey { key }
    }

    pub fn as_u64(&self) -> (key: u64)
        ensures
            key == self.key,
    {
        self.key
    }
}

} // verus!
