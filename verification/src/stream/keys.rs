//! The key and the initialization vector of the remote input stream.

use std::ops::Deref;
use vstd::prelude::*;

verus! {

/// Where the random bytes of keys come from.
///
/// An implementation outside the verified code leaves open what the spec functions say of it.
pub trait PairingCryptoBackend {
    type Error;

    /// Whether these may be the bytes that the backend gives.
    open spec fn may_yield(&self, bytes: Seq<u8>) -> bool {
        arbitrary()
    }

    /// Whether the backend may fail with this error.
    open spec fn may_fail(&self, error: Self::Error) -> bool {
        arbitrary()
    }

    /// Fills the buffer with random bytes.
    fn random_bytes(&self, buffer: &mut [u8]) -> (r: Result<(), Self::Error>)
        ensures
            final(buffer)@.len() == old(buffer)@.len(),
            match r {
                Ok(()) => self.may_yield(final(buffer)@),
                Err(error) => self.may_fail(error),
            },
    ;
}

/// The number whose four bytes these are, the least significant first.
pub open spec fn from_le(bytes: Seq<u8>) -> int {
    bytes[0] + bytes[1] * 0x100 + bytes[2] * 0x1_0000 + bytes[3] * 0x100_0000
}

/// An AES key.
#[derive(Clone, Copy, PartialEq)]
pub struct AesKey(pub [u8; 16]);

impl AesKey {
    /// A key of random bytes.
    pub fn new_random<Crypto: PairingCryptoBackend>(crypto_backend: &Crypto) -> (r: Result<
        Self,
        Crypto::Error,
    >)
        ensures
            match r {
                Ok(key) => crypto_backend.may_yield(key.0@),
                Err(error) => crypto_backend.may_fail(error),
            },
    {
        let mut key: [u8; 16] = [0; 16];
        match crypto_backend.random_bytes(&mut key) {
            Ok(()) => Ok(AesKey(key)),
            Err(error) => Err(error),
        }
    }

    /// What logs show of the key: nothing.
    pub fn debug_text(&self) -> (r: &'static str)
        ensures
            r@ == "[AesKey]"@,
    {
        "[AesKey]"
    }
}

impl Deref for AesKey {
    type Target = [u8];

    fn deref(&self) -> (r: &[u8])
        ensures
            r@ == self.0@,
    {
        &self.0
    }
}

/// An initialization vector.
#[derive(Clone, Copy, PartialEq, Eq, Structural)]
pub struct AesIv(pub u32);

impl AesIv {
    /// The vector whose four bytes these are, the least significant first.
    pub fn from_array(iv: [u8; 4]) -> (r: Self)
        ensures
            r.0 == from_le(iv@),
    {
        AesIv(
            iv[0] as u32 + iv[1] as u32 * 0x100 + iv[2] as u32 * 0x1_0000 + iv[3] as u32
                * 0x100_0000,
        )
    }

    /// A vector of random bytes.
    pub fn new_random<Crypto: PairingCryptoBackend>(crypto_backend: &Crypto) -> (r: Result<
        Self,
        Crypto::Error,
    >)
        ensures
            match r {
                Ok(iv) => exists|bytes: [u8; 4]| #[trigger]
                    crypto_backend.may_yield(bytes@) && iv.0 == from_le(bytes@),
                Err(error) => crypto_backend.may_fail(error),
            },
    {
        let mut iv: [u8; 4] = [0; 4];
        match crypto_backend.random_bytes(&mut iv) {
            Ok(()) => Ok(AesIv::from_array(iv)),
            Err(error) => Err(error),
        }
    }

    /// Useful for passing the [`AesIv`] into functions of a crypto backend: its four bytes,
    /// the least significant first.
    pub fn to_array(self) -> (r: [u8; 4])
        ensures
            from_le(r@) == self.0,
    {
        let n: u32 = self.0;
        [
            (n % 0x100) as u8,
            (n / 0x100 % 0x100) as u8,
            (n / 0x1_0000 % 0x100) as u8,
            (n / 0x100_0000) as u8,
        ]
    }

    /// What logs show of the vector: nothing.
    pub fn debug_text(&self) -> (r: &'static str)
        ensures
            r@ == "[AesIv]"@,
    {
        "[AesIv]"
    }
}

impl Deref for AesIv {
    type Target = u32;

    fn deref(&self) -> (r: &u32)
        ensures
            *r == self.0,
    {
        &self.0
    }
}

/// The four bytes of a number are determined by it.
pub proof fn lemma_le_bytes_unique(a: Seq<u8>, b: Seq<u8>)
    requires
        a.len() == 4,
        b.len() == 4,
        from_le(a) == from_le(b),
    ensures
        a == b,
{
    assert(a[0] == b[0] && a[1] == b[1] && a[2] == b[2] && a[3] == b[3]);
    assert(a =~= b);
}

/// The bytes of a vector are those that were drawn for it.
pub proof fn lemma_iv_keeps_its_bytes(drawn: Seq<u8>, iv: AesIv, array: Seq<u8>)
    requires
        drawn.len() == 4,
        array.len() == 4,
        iv.0 == from_le(drawn),
        from_le(array) == iv.0,
    ensures
        array == drawn,
{
    lemma_le_bytes_unique(array, drawn);
}

/// The encryption of a Sunshine stream.
#[derive(Clone, Copy)]
pub struct SunshineEncryption {
    /// AES encryption data for the remote input stream. This must be
    /// the same as what was passed as rikey and rikeyid
    /// in `/launch` and `/resume` requests.
    pub aes_key: AesKey,
    /// AES encryption data for the remote input stream. This must be
    /// the same as what was passed as rikey and rikeyid
    /// in `/launch` and `/resume` requests.
    pub aes_iv: AesIv,
}

/// Each byte is the part of the number at its place, the least significant one first.
pub proof fn lemma_le_places(bytes: Seq<u8>)
    requires
        bytes.len() == 4,
    ensures
        0 <= from_le(bytes) < 0x1_0000_0000,
        bytes[0] == from_le(bytes) % 0x100,
        bytes[1] == from_le(bytes) / 0x100 % 0x100,
        bytes[2] == from_le(bytes) / 0x1_0000 % 0x100,
        bytes[3] == from_le(bytes) / 0x100_0000,
{
}

} // verus!
