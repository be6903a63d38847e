//! The two kinds of row that the database keeps.
//!
//! A configuration row holds one primitive (a `u8` or a boolean), encoded and
//! then written as a byte string, so that a `u8` of 5 is the two bytes 1, 5.
//! A value row is the 12 bytes of a nonce followed by the ciphertext and its
//! 16-byte tag.

use vstd::prelude::*;
use crate::codec::decode_bool;
use crate::codec::decode_bytes;
use crate::codec::decode_u8;
use crate::codec::encode_bytes;
use crate::codec::lemma_bytes_roundtrip;
use crate::codec::parse_bool;
use crate::codec::parse_bytes;
use crate::codec::parse_u8;
use crate::codec::spec_bool;
use crate::codec::spec_bytes;

verus! {

/// The length of a nonce in bytes.
pub const NONCE_LEN: usize = 12;

/// The length of the tag that follows a ciphertext, in bytes.
pub const TAG_LEN: usize = 16;

/// The row that holds the `u8` `value`.
pub open spec fn u8_row(value: u8) -> Seq<u8> {
    spec_bytes(seq![value])
}

/// The row that holds the boolean `value`.
pub open spec fn bool_row(value: bool) -> Seq<u8> {
    spec_bytes(spec_bool(value))
}

/// The encoded primitive inside a configuration row, if the row is a byte
/// string. Bytes behind the byte string are not looked at.
pub open spec fn row_payload(row: Seq<u8>) -> Option<Seq<u8>> {
    match parse_bytes(row) {
        Ok((payload, _)) => Some(payload),
        Err(_) => None,
    }
}

/// The `u8` that a configuration row holds, if it holds one.
pub open spec fn row_u8(row: Seq<u8>) -> Option<u8> {
    match row_payload(row) {
        None => None,
        Some(payload) => match parse_u8(payload) {
            Ok((value, _)) => Some(value),
            Err(_) => None,
        },
    }
}

/// The boolean that a configuration row holds, if it holds one.
pub open spec fn row_bool(row: Seq<u8>) -> Option<bool> {
    match row_payload(row) {
        None => None,
        Some(payload) => match parse_bool(payload) {
            Ok((value, _)) => Some(value),
            Err(_) => None,
        },
    }
}

/// A `u8` written to a row is read back from it.
pub proof fn lemma_u8_row_roundtrip(value: u8)
    ensures
        row_u8(u8_row(value)) == Some(value),
{
    lemma_bytes_roundtrip(seq![value], Seq::empty());
}

/// A boolean written to a row is read back from it.
pub proof fn lemma_bool_row_roundtrip(value: bool)
    ensures
        row_bool(bool_row(value)) == Some(value),
{
    lemma_bytes_roundtrip(spec_bool(value), Seq::empty());
}

/// A value of the configuration table: an encoded primitive.
#[derive(Clone, Debug, PartialEq, Eq)]
pub struct ConfigVal {
    value: Vec<u8>,
}

impl View for ConfigVal {
    type V = Seq<u8>;

    /// The encoded primitive.
    closed spec fn view(&self) -> Seq<u8> {
        self.value@
    }
}

impl ConfigVal {
    /// The configuration value that holds the `u8` `value`.
    pub fn from_u8(value: u8) -> (val: Self)
        ensures
            val@ == seq![value],
    {
        let mut encoded: Vec<u8> = Vec::new();
        encoded.push(value);
        ConfigVal { value: encoded }
    }

    /// The configuration value that holds the boolean `value`.
    pub fn from_bool(value: bool) -> (val: Self)
        ensures
            val@ == spec_bool(value),
    {
        let mut encoded: Vec<u8> = Vec::new();
        encoded.push(if value { 1 } else { 0 });
        ConfigVal { value: encoded }
    }

    /// The `u8` that this value holds, if it starts with one.
    pub fn to_u8(&self) -> (r: Option<u8>)
        ensures
            r == match parse_u8(self@) {
                Ok((value, _)) => Some(value),
                Err(_) => None,
            },
    {
        match decode_u8(self.value.as_slice(), 0) {
            Ok((value, _)) => Some(value),
            Err(_) => None,
        }
    }

    /// The boolean that this value holds, if it starts with one.
    pub fn to_bool(&self) -> (r: Option<bool>)
        ensures
            r == match parse_bool(self@) {
                Ok((value, _)) => Some(value),
                Err(_) => None,
            },
    {
        match decode_bool(self.value.as_slice(), 0) {
            Ok((value, _)) => Some(value),
            Err(_) => None,
        }
    }

    /// The row that keeps this value.
    pub fn as_bytes(&self) -> (row: Vec<u8>)
        ensures
            row@ == spec_bytes(self@),
    {
        let mut row: Vec<u8> = Vec::new();
        encode_bytes(self.value.as_slice(), &mut row);
        row
    }

    /// The value that `row` keeps, if `row` starts with a byte string.
    pub fn from_bytes(row: &[u8]) -> (r: Option<Self>)
        ensures
            match row_payload(row@) {
                Some(payload) => r matches Some(val) && val@ == payload,
                None => r is None,
            },
    {
        match decode_bytes(row, 0) {
            Ok((payload, _)) => Some(ConfigVal { value: payload }),
            Err(_) => None,
        }
    }
}

/// The row that holds a sealed value with the nonce `nonce` and the
/// ciphertext and tag `ciphertext`.
pub open spec fn sealed_row(nonce: Seq<u8>, ciphertext: Seq<u8>) -> Seq<u8> {
    nonce + ciphertext
}

/// The nonce and the ciphertext that a value row holds, if the row is long
/// enough to hold a nonce.
pub open spec fn row_sealed(row: Seq<u8>) -> Option<(Seq<u8>, Seq<u8>)> {
    if row.len() < NONCE_LEN {
        None
    } else {
        Some((row.subrange(0, NONCE_LEN as int), row.subrange(NONCE_LEN as int, row.len() as int)))
    }
}

/// A sealed value written to a row is read back from it.
pub proof fn lemma_sealed_row_roundtrip(nonce: Seq<u8>, ciphertext: Seq<u8>)
    requires
        nonce.len() == NONCE_LEN,
    ensures
        row_sealed(sealed_row(nonce, ciphertext)) == Some((nonce, ciphertext)),
{
}

/// A value of the value table: what sealing a plaintext gave.
#[derive(Clone, Debug, PartialEq, Eq)]
pub struct StoredValue {
    nonce: [u8; 12],
    ciphertext: Vec<u8>,
}

impl View for StoredValue {
    type V = (Seq<u8>, Seq<u8>);

    /// The nonce, of 12 bytes, and the ciphertext with its tag.
    closed spec fn view(&self) -> (Seq<u8>, Seq<u8>) {
        (self.nonce@, self.ciphertext@)
    }
}

impl StoredValue {
    /// A stored value of `nonce` and `ciphertext`.
    pub fn new(nonce: [u8; 12], ciphertext: Vec<u8>) -> (val: Self)
        ensures
            val@ == (nonce@, ciphertext@),
    {
        StoredValue { nonce, ciphertext }
    }

    /// The nonce under which the value was sealed.
    pub fn nonce(&self) -> (nonce: [u8; 12])
        ensures
            nonce@ == self@.0,
            nonce@.len() == NONCE_LEN,
    {
        self.nonce
    }

    /// The ciphertext, followed by its tag.
    pub fn ciphertext(&self) -> (ciphertext: &Vec<u8>)
        ensures
            ciphertext@ == self@.1,
    {
        &self.ciphertext
    }

    /// The row that keeps this value: the nonce, then the ciphertext.
    pub fn as_bytes(&self) -> (row: Vec<u8>)
        ensures
            row@ == sealed_row(self@.0, self@.1),
            self@.0.len() == NONCE_LEN,
    {
        let mut row: Vec<u8> = Vec::new();
        row.extend_from_slice(self.nonce.as_slice());
        row.extend_from_slice(self.ciphertext.as_slice());
        row
    }

    /// The value that `row` keeps, if `row` is long enough to hold a nonce.
    pub fn from_bytes(row: &[u8]) -> (r: Option<Self>)
        ensures
            match row_sealed(row@) {
                Some(parts) => r matches Some(val) && val@ == parts,
                None => r is None,
            },
    {
        let len: usize = row.len();
        if len < NONCE_LEN {
            return None;
        }
        let mut nonce: [u8; 12] = [0u8; 12];
        let mut i: usize = 0;
        while i < NONCE_LEN
            invariant
                i <= NONCE_LEN,
                NONCE_LEN <= row@.len(),
                nonce@.len() == NONCE_LEN,
                forall|j: int| 0 <= j < i ==> nonce@[j] == row@[j],
            decreases NONCE_LEN - i,
        {
            nonce[i] = row[i];
            i = i + 1;
        }
        let ciphertext = vstd::slice::slice_to_vec(vstd::slice::slice_subrange(row, NONCE_LEN, len));
        Some(StoredValue { nonce, ciphertext })
    }
}

} // verus!
