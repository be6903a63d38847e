//! A fresh random secret, handed out as shares only.

use vstd::prelude::*;
use crate::error::StoreError;
use crate::error::StoreErrorView;
use crate::key::can_split;
use crate::key::is_quorum;
use crate::key::shamir_combined;
use crate::key::split_secret;
use crate::message::Init;
use crate::seal::random_bytes;
use crate::seal::zeroize;

verus! {

/// The length in bytes of the secret that `genkey` draws.
pub const SECRET_LEN: usize = 256;

/// `shares` are shares of one secret of `len` bytes: every quorum of them
/// combines to the bytes that all of them combine to.
pub open spec fn shares_of_one_secret(shares: Seq<Seq<char>>, threshold: u8, len: nat) -> bool {
    &&& shares.no_duplicates()
    &&& shamir_combined(shares) matches Some(secret) && secret.len() == len
    &&& forall|quorum: Seq<Seq<char>>| #[trigger]
        is_quorum(quorum, shares, threshold) ==> shamir_combined(quorum) == shamir_combined(
            shares,
        )
}

/// What `genkey` gives once the random source has given `secret` (or has
/// failed, where `secret` is an error): the shares of the secret.
pub fn shares_of_drawn(init: &Init, secret: Result<Vec<u8>, StoreError>) -> (r: Result<
    Vec<String>,
    StoreError,
>)
    ensures
        match secret {
            Err(e) => r matches Err(f) && f@ == e@,
            Ok(bytes) => {
                &&& r is Ok <==> can_split(init.num_shares(), init.threshold(), bytes@.len())
                &&& r matches Ok(shares) ==> shares.deep_view().len() == init.num_shares()
                    && crate::key::shares_of(shares.deep_view(), init.threshold(), bytes@)
                    && shares_of_one_secret(
                    shares.deep_view(),
                    init.threshold(),
                    bytes@.len(),
                )
                &&& r matches Err(f) ==> f@ == StoreErrorView::ShareGeneration
            },
        },
{
    match secret {
        Err(e) => Err(e),
        Ok(mut bytes) => {
            let shares = split_secret(init, bytes.as_slice());
            proof {
                if shares is Ok {
                    let all = shares->Ok_0.deep_view();
                    assert(is_quorum(all, all, init.threshold()));
                }
            }
            zeroize(&mut bytes);
            shares
        },
    }
}

/// Draws a random secret of 256 bytes and splits it into
/// `init.num_shares()` shares, `init.threshold()` of which reconstruct it.
/// The secret itself is overwritten before the function returns.
pub fn genkey(init: &Init) -> (r: Result<Vec<String>, StoreError>)
    ensures
        r matches Ok(shares) ==> 0 < init.threshold() <= init.num_shares()
            && shares.deep_view().len() == init.num_shares() && shares_of_one_secret(
            shares.deep_view(),
            init.threshold(),
            SECRET_LEN as nat,
        ),
        r matches Err(e) ==> e@ == StoreErrorView::Crypto || (e@ == StoreErrorView::ShareGeneration && !(0
            < init.threshold() <= init.num_shares())),
        !(0 < init.threshold() <= init.num_shares()) ==> r is Err,
{
    let secret = match random_bytes(SECRET_LEN) {
        Ok(bytes) => Ok(bytes),
        Err(_) => Err(StoreError::Crypto),
    };
    shares_of_drawn(init, secret)
}

} // verus!
