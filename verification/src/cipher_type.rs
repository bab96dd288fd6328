//! Cipher descriptor registry: maps a cipher variant to its fixed key size
//! and block size. Pure lookup, defined at process scope.

use vstd::prelude::*;
use crate::CipherError;

verus! {

/// A cipher variant supported by the accelerator kernels.
#[derive(Debug, Clone, Copy, PartialEq, Eq, Structural)]
pub enum CipherType {
    /// Speck with a 128-bit block and a 128-bit key.
    Speck128_128,
}

/// The declared key size of a variant, in bytes.
pub open spec fn spec_key_size(c: CipherType) -> u64 {
    match c {
        CipherType::Speck128_128 => 16,
    }
}

/// The declared block size of a variant, in bytes: the unit the kernel
/// transforms independently, with no state carried between blocks.
pub open spec fn spec_block_size(c: CipherType) -> u64 {
    match c {
        CipherType::Speck128_128 => 16,
    }
}

/// Every registered variant's key fits the parameter block's 32-bit
/// length field with room for the prefix itself.
pub proof fn lemma_key_size_fits_prefix(c: CipherType)
    ensures
        4 + spec_key_size(c) <= u32::MAX,
{
}

impl CipherType {
    /// Look a variant up by its identifier. The registry is a pure map;
    /// its only failure mode is an identifier that names no variant,
    /// which fails with `UnknownCipherVariant`.
    pub fn from_name(name: &str) -> (r: Result<CipherType, CipherError>)
        ensures
            name@ == "speck_128_128"@
                ==> r == Ok::<CipherType, CipherError>(CipherType::Speck128_128),
            name@ != "speck_128_128"@
                ==> r == Err::<CipherType, CipherError>(CipherError::UnknownCipherVariant),
    {
        let requested: String = name.to_owned();
        let speck: String = "speck_128_128".to_owned();
        if requested == speck {
            Ok(CipherType::Speck128_128)
        } else {
            Err(CipherError::UnknownCipherVariant)
        }
    }

    /// The exact number of key bytes the variant's kernel expects.
    pub fn key_size(&self) -> (n: u64)
        ensures
            n == spec_key_size(*self),
            n > 0,
    {
        match self {
            CipherType::Speck128_128 => 16,
        }
    }

    /// The number of bytes the variant's kernel transforms as one block.
    pub fn block_size(&self) -> (n: u64)
        ensures
            n == spec_block_size(*self),
            n > 0,
    {
        match self {
            CipherType::Speck128_128 => 16,
        }
    }
}

} // verus!
