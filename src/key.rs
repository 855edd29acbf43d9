use vstd::prelude::*;

verus! {

/// The address of a storage slot.
#[derive(Clone, Copy, Debug, PartialEq, Eq)]
pub struct Key(pub [u8; 32]);

impl View for Key {
    type V = Seq<u8>;

    open spec fn view(&self) -> Seq<u8> {
        self.0@
    }
}

/// Relies on `parity_codec::Encode` for `[u8; 32]`: the encoding is the 32
/// bytes themselves, in order.
#[verifier::external_body]
fn encode_bytes(bytes: &[u8; 32]) -> (r: Vec<u8>)
    ensures
        r@ == bytes@,
{
    parity_codec::Encode::encode(bytes)
}

/// Relies on `parity_codec::Decode` for `[u8; 32]`: it reads 32 bytes at
/// once and fails when the input holds fewer.
#[verifier::external_body]
fn decode_bytes(input: &[u8]) -> (r: Option<[u8; 32]>)
    ensures
        r is Some <==> input@.len() >= 32,
        r matches Some(bytes) ==> bytes@ == input@.subrange(0, 32),
{
    let mut rest: &[u8] = input;
    <[u8; 32] as parity_codec::Decode>::decode(&mut rest)
}

impl Key {
    /// The encoded form of the key.
    pub fn encode(&self) -> (r: Vec<u8>)
        ensures
            r@ == self@,
    {
        encode_bytes(&self.0)
    }

    /// Reads a key from the front of `input`; `None` when `input` is shorter
    /// than a key.
    pub fn decode(input: &[u8]) -> (r: Option<Key>)
        ensures
            r is Some <==> input@.len() >= 32,
            r matches Some(key) ==> key@ == input@.subrange(0, 32),
    {
        match decode_bytes(input) {
            Some(bytes) => Some(Key(bytes)),
            None => None,
        }
    }
}

} // verus!
