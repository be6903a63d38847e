//! Authenticated encryption of stored values: AES-256-GCM with a fresh
//! random nonce of 12 bytes for each sealing and no associated data.
//!
//! The cipher is not verified. What this library takes for granted of it is
//! stated on the functions of this file that have no verified body.

use vstd::prelude::*;
use aws_lc_rs::aead::Aad;
use aws_lc_rs::aead::Nonce;
use aws_lc_rs::aead::RandomizedNonceKey;
use aws_lc_rs::aead::AES_256_GCM;
use aws_lc_rs::error::Unspecified;
use crate::values::TAG_LEN;

verus! {

#[verifier::external_type_specification]
#[verifier::external_body]
pub struct ExUnspecified(Unspecified);

/// The length of a key in bytes.
pub const KEY_LEN: usize = 32;

/// What opening `sealed` (a ciphertext followed by its tag) with `key` and
/// `nonce` gives: the plaintext, or nothing where the tag does not
/// authenticate the ciphertext under that key and nonce.
pub uninterp spec fn aead_opened(key: Seq<u8>, nonce: Seq<u8>, sealed: Seq<u8>) -> Option<Seq<u8>>;

/// `RandomizedNonceKey::new` for `AES_256_GCM` and
/// `RandomizedNonceKey::seal_in_place_append_tag` of `aws_lc_rs::aead`: seals
/// `plaintext` under `key` with a nonce that the cipher draws at random and
/// with no associated data. What comes back is the nonce and the ciphertext
/// followed by its tag, 16 bytes longer than the plaintext; opening it with
/// the same key and nonce gives the plaintext back. A key that is not 32
/// bytes long is refused. Of a call that fails nothing else is claimed.
#[verifier::external_body]
pub(crate) fn aead_seal(key: &[u8], plaintext: &[u8]) -> (r: Result<
    ([u8; 12], Vec<u8>),
    Unspecified,
>)
    ensures
        key@.len() != KEY_LEN ==> r is Err,
        r matches Ok((nonce, sealed)) ==> aead_opened(key@, nonce@, sealed@) == Some(plaintext@)
            && sealed@.len() == plaintext@.len() + TAG_LEN,
{
    let cipher = RandomizedNonceKey::new(&AES_256_GCM, key)?;
    let mut buffer = plaintext.to_vec();
    let nonce = cipher.seal_in_place_append_tag(Aad::empty(), &mut buffer)?;
    Ok((*nonce.as_ref(), buffer))
}

/// `RandomizedNonceKey::new` for `AES_256_GCM` and
/// `RandomizedNonceKey::open_in_place` of `aws_lc_rs::aead`: opens `sealed`
/// (a ciphertext followed by its tag) with `key` and `nonce` and with no
/// associated data. The plaintext comes back exactly where `aead_opened` has
/// one; it is 16 bytes shorter than `sealed`, and the key is then 32 bytes
/// long.
#[verifier::external_body]
pub(crate) fn aead_open(key: &[u8], nonce: &[u8; 12], sealed: &[u8]) -> (r: Result<
    Vec<u8>,
    Unspecified,
>)
    ensures
        match aead_opened(key@, nonce@, sealed@) {
            Some(plaintext) => r matches Ok(opened) && opened@ == plaintext,
            None => r is Err,
        },
        r matches Ok(opened) ==> key@.len() == KEY_LEN && sealed@.len() == opened@.len()
            + TAG_LEN,
{
    let cipher = RandomizedNonceKey::new(&AES_256_GCM, key)?;
    let mut buffer = sealed.to_vec();
    let opened = cipher.open_in_place(Nonce::from(nonce), Aad::empty(), &mut buffer)?.to_vec();
    Ok(opened)
}

/// `aws_lc_rs::rand::fill`: `count` bytes from the system's random source.
/// Only their number is claimed.
#[verifier::external_body]
pub(crate) fn random_bytes(count: usize) -> (r: Result<Vec<u8>, Unspecified>)
    ensures
        r matches Ok(bytes) ==> bytes@.len() == count,
{
    let mut bytes = vec![0u8; count];
    aws_lc_rs::rand::fill(&mut bytes)?;
    Ok(bytes)
}

/// A master key: 32 bytes, which are overwritten when the key is given up.
pub struct MasterKey {
    bytes: Vec<u8>,
}

impl View for MasterKey {
    type V = Seq<u8>;

    /// The bytes of the key.
    closed spec fn view(&self) -> Seq<u8> {
        self.bytes@
    }
}

impl MasterKey {
    /// A key is 32 bytes long.
    #[verifier::type_invariant]
    spec fn well_formed(self) -> bool {
        self.bytes@.len() == KEY_LEN
    }

    /// The key of the bytes `bytes`, if there are 32 of them. Bytes of
    /// another number are overwritten and given up.
    pub fn new(bytes: Vec<u8>) -> (key: Option<Self>)
        ensures
            bytes@.len() == KEY_LEN <==> key is Some,
            key matches Some(k) ==> k@ == bytes@,
    {
        if bytes.len() == KEY_LEN {
            Some(MasterKey { bytes })
        } else {
            let mut bytes = bytes;
            zeroize(&mut bytes);
            None
        }
    }

    /// The bytes of the key.
    pub fn as_slice(&self) -> (bytes: &[u8])
        ensures
            bytes@ == self@,
            bytes@.len() == KEY_LEN,
    {
        proof {
            use_type_invariant(self);
        }
        self.bytes.as_slice()
    }

    /// Overwrites the bytes of the key and gives it up.
    pub fn wipe(self) {
        let mut bytes = self.bytes;
        zeroize(&mut bytes);
    }
}

/// Overwrites every byte of `bytes` with zero.
pub fn zeroize(bytes: &mut Vec<u8>)
    ensures
        final(bytes)@.len() == old(bytes)@.len(),
        forall|i: int| 0 <= i < final(bytes)@.len() ==> final(bytes)@[i] == 0,
{
    let len: usize = bytes.len();
    let mut i: usize = 0;
    while i < len
        invariant
            i <= len,
            bytes@.len() == len,
            forall|j: int| 0 <= j < i ==> bytes@[j] == 0,
        decreases len - i,
    {
        bytes[i] = 0;
        i = i + 1;
    }
}

} // verus!
