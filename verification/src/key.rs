//! Splitting a key into shares and combining shares to a key, by Shamir's
//! scheme.
//!
//! The scheme is not verified. What this library takes for granted of it is
//! stated on the functions of this file that have no verified body.

use vstd::prelude::*;
use ssss::SsssConfig;
use crate::error::StoreError;
use crate::message::Init;

verus! {

/// The longest secret that is split, in bytes.
pub const MAX_SECRET_LEN: usize = 65535;

/// What combining `shares` gives: the bytes that they reconstruct, or
/// nothing where no share among them can be read, or the shares that can be
/// read are empty or differ in length. Shares that do not reach the
/// threshold they were made with still combine, to other bytes than the
/// secret.
pub uninterp spec fn shamir_combined(shares: Seq<Seq<char>>) -> Option<Seq<u8>>;

/// The numbers of shares, thresholds and secret lengths that can be split:
/// a secret of 1 to 65535 bytes, and a threshold from 1 to the number of
/// shares.
pub open spec fn can_split(num_shares: u8, threshold: u8, secret_len: nat) -> bool {
    0 < secret_len <= MAX_SECRET_LEN && 0 < threshold <= num_shares
}

/// `quorum` holds at least `threshold` of `shares`, each at most once.
pub open spec fn is_quorum(quorum: Seq<Seq<char>>, shares: Seq<Seq<char>>, threshold: u8) -> bool {
    &&& quorum.len() >= threshold
    &&& quorum.no_duplicates()
    &&& forall|i: int| 0 <= i < quorum.len() ==> shares.contains(#[trigger] quorum[i])
}

/// `shares` are shares of `secret` with the threshold `threshold`: they
/// differ from one another, and every quorum of them combines to `secret`.
pub open spec fn shares_of(shares: Seq<Seq<char>>, threshold: u8, secret: Seq<u8>) -> bool {
    &&& shares.no_duplicates()
    &&& forall|quorum: Seq<Seq<char>>| #[trigger]
        is_quorum(quorum, shares, threshold) ==> shamir_combined(quorum) == Some(secret)
}

/// `ssss::gen_shares` with a configuration of `num_shares` shares and the
/// threshold `threshold`: splits `secret`. Shares come back exactly for what
/// `can_split` admits. There are `num_shares` of them, no two the same, and
/// any `threshold` or more of them combine to `secret`.
#[verifier::external_body]
pub(crate) fn shamir_split(num_shares: u8, threshold: u8, secret: &[u8]) -> (r: Option<
    Vec<String>,
>)
    ensures
        r is Some <==> can_split(num_shares, threshold, secret@.len()),
        r matches Some(shares) ==> shares.deep_view().len() == num_shares && shares_of(
            shares.deep_view(),
            threshold,
            secret@,
        ),
{
    let config = SsssConfig::builder().num_shares(num_shares).threshold(threshold).build();
    ssss::gen_shares(&config, secret).ok()
}

/// `ssss::unlock`: combines `shares`. The bytes come back exactly where
/// `shamir_combined` has some.
#[verifier::external_body]
pub(crate) fn shamir_combine(shares: &[String]) -> (r: Option<Vec<u8>>)
    ensures
        match shamir_combined(shares.deep_view()) {
            Some(secret) => r matches Some(bytes) && bytes@ == secret,
            None => r is None,
        },
{
    ssss::unlock(shares).ok()
}

/// Splits `secret` into `init.num_shares()` shares, `init.threshold()` of
/// which reconstruct it.
pub fn split_secret(init: &Init, secret: &[u8]) -> (r: Result<Vec<String>, StoreError>)
    ensures
        r is Ok <==> can_split(init.num_shares(), init.threshold(), secret@.len()),
        r matches Ok(shares) ==> shares.deep_view().len() == init.num_shares() && shares_of(
            shares.deep_view(),
            init.threshold(),
            secret@,
        ),
        r matches Err(e) ==> e@ == crate::error::StoreErrorView::ShareGeneration,
{
    match shamir_split(init.num_shares(), init.threshold(), secret) {
        Some(shares) => Ok(shares),
        None => Err(StoreError::ShareGeneration),
    }
}

/// Splits the 32 bytes of `key` into `init.num_shares()` shares,
/// `init.threshold()` of which reconstruct it.
pub fn gen_shares(init: &Init, key: &[u8; 32]) -> (r: Result<Vec<String>, StoreError>)
    ensures
        r is Ok <==> 0 < init.threshold() <= init.num_shares(),
        r matches Ok(shares) ==> shares.deep_view().len() == init.num_shares() && shares_of(
            shares.deep_view(),
            init.threshold(),
            key@,
        ),
        r matches Err(e) ==> e@ == crate::error::StoreErrorView::ShareGeneration,
{
    split_secret(init, key.as_slice())
}

/// Combines `shares` to the bytes that they reconstruct.
pub fn unlock_key(shares: &[String]) -> (r: Result<Vec<u8>, StoreError>)
    ensures
        match shamir_combined(shares.deep_view()) {
            Some(secret) => r matches Ok(bytes) && bytes@ == secret,
            None => r matches Err(e) && e@ == crate::error::StoreErrorView::ShareCombination,
        },
{
    match shamir_combine(shares) {
        Some(bytes) => Ok(bytes),
        None => Err(StoreError::ShareCombination),
    }
}

} // verus!
