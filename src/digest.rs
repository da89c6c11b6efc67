//! Digest algorithms of the hash engine's interface and the results it
//! hands back.

use vstd::prelude::*;

verus! {

pub const SHA1_SZ: usize = 20;
pub const SHA256_SZ: usize = 32;
pub const SHA384_SZ: usize = 48;
pub const SHA512_SZ: usize = 64;
pub const MAX_DIGEST_SZ: usize = 64;

/// Algorithm codes of the interface.
pub const ALGO_SHA1: u32 = 1;
pub const ALGO_SHA256: u32 = 2;
pub const ALGO_SHA384: u32 = 3;
pub const ALGO_SHA512: u32 = 4;

/// Bits of the supported-algorithms mask.
pub const SUPPORT_SHA1: u32 = 1;
pub const SUPPORT_SHA256: u32 = 2;
pub const SUPPORT_SHA384: u32 = 4;
pub const SUPPORT_SHA512: u32 = 8;
pub const SUPPORT_ALL: u32 = 15;

/// Errors of the hash engine's interface.
#[derive(Copy, Clone, Debug, PartialEq, Eq, Structural)]
pub enum HmacHashError {
    NotInitialized,
    InvalidState,
    /// Some other owner is using the hash block
    Busy,
    NoData,
    InvalidKeySize,
    InvalidAlgorithm,
    UnsupportedAlgorithm,
    HardwareError,
    InvalidDataSize,
    ServerRestarted,
}

/// A digest of up to 64 bytes.
#[derive(Clone, Debug)]
pub struct DigestResult {
    pub bytes: [u8; 64],
    pub len: usize,
}

impl DigestResult {
    /// The digest's bytes.
    pub fn as_slice(&self) -> (r: &[u8])
        requires
            self.len <= MAX_DIGEST_SZ,
        ensures
            r@ == self.bytes@.subrange(0, self.len as int),
    {
        &self.bytes[0..self.len]
    }
}

/// Hash algorithms.
#[derive(Copy, Clone, Debug, PartialEq, Eq, Structural)]
pub enum Algorithm {
    Sha1,
    Sha256,
    Sha384,
    Sha512,
}

impl Algorithm {
    /// The algorithm's code on the interface.
    pub open spec fn spec_code(self) -> u32 {
        match self {
            Algorithm::Sha1 => ALGO_SHA1,
            Algorithm::Sha256 => ALGO_SHA256,
            Algorithm::Sha384 => ALGO_SHA384,
            Algorithm::Sha512 => ALGO_SHA512,
        }
    }

    /// The algorithm with code `algo`, or `InvalidAlgorithm`.
    pub fn from_u32(algo: u32) -> (r: Result<Self, HmacHashError>)
        ensures
            match r {
                Ok(a) => a.spec_code() == algo,
                Err(e) => e == HmacHashError::InvalidAlgorithm && (algo == 0 || algo > 4),
            },
    {
        match algo {
            ALGO_SHA1 => Ok(Algorithm::Sha1),
            ALGO_SHA256 => Ok(Algorithm::Sha256),
            ALGO_SHA384 => Ok(Algorithm::Sha384),
            ALGO_SHA512 => Ok(Algorithm::Sha512),
            _ => Err(HmacHashError::InvalidAlgorithm),
        }
    }

    /// The length of the algorithm's digest, in bytes.
    pub open spec fn spec_digest_size(self) -> usize {
        match self {
            Algorithm::Sha1 => SHA1_SZ,
            Algorithm::Sha256 => SHA256_SZ,
            Algorithm::Sha384 => SHA384_SZ,
            Algorithm::Sha512 => SHA512_SZ,
        }
    }

    pub fn digest_size(self) -> (r: usize)
        ensures
            r == self.spec_digest_size(),
            r <= MAX_DIGEST_SZ,
    {
        match self {
            Algorithm::Sha1 => SHA1_SZ,
            Algorithm::Sha256 => SHA256_SZ,
            Algorithm::Sha384 => SHA384_SZ,
            Algorithm::Sha512 => SHA512_SZ,
        }
    }
}

} // verus!
