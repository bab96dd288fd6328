//! Key loader: accepts key material only when its length equals the cipher
//! variant's declared key size. A short or long key is a hard failure; it is
//! never truncated or zero-padded, and no pipeline is constructed from it.

use vstd::prelude::*;
use crate::CipherError;

verus! {

/// An immutable key whose length was checked at load time.
pub struct Key {
    i_key: Vec<u8>,
}

impl Key {
    /// The loaded key bytes.
    pub closed spec fn view(&self) -> Seq<u8> {
        self.i_key@
    }

    /// Accept `bytes` as a key of exactly `required` bytes.
    ///
    /// Succeeds if and only if the length matches; any other length fails
    /// with `KeyLengthMismatch` and yields no key value at all.
    pub fn from_bytes(bytes: Vec<u8>, required: u64) -> (r: Result<Key, CipherError>)
        ensures
            r is Ok <==> bytes@.len() == required,
            r is Ok ==> r->Ok_0@ == bytes@,
            r is Err ==> r->Err_0 == CipherError::KeyLengthMismatch,
    {
        if bytes.len() as u64 == required {
            Ok(Key { i_key: bytes })
        } else {
            Err(CipherError::KeyLengthMismatch)
        }
    }

    /// The key bytes, read-only.
    pub fn data(&self) -> (r: &[u8])
        ensures
            r@ == self@,
    {
        self.i_key.as_slice()
    }

    /// The key's length in bytes.
    pub fn len(&self) -> (n: usize)
        ensures
            n == self@.len(),
    {
        self.i_key.len()
    }
}

} // verus!
