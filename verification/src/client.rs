//! What a client makes of the responses of the store.

use vstd::prelude::*;
use crate::message::Init;
use crate::message::Response;
use crate::message::ResponseView;

verus! {

/// The number of shares to ask the user for, given the answer to
/// `GetThreshold`: the threshold, and 3 where the answer holds none.
pub open spec fn spec_share_prompts(response: ResponseView) -> u8 {
    match response {
        ResponseView::Threshold(threshold) => threshold,
        _ => Init::DEFAULT_THRESHOLD,
    }
}

/// The number of shares to ask the user for, given the answer to
/// `GetThreshold`.
pub fn share_prompts(response: &Response) -> (count: u8)
    ensures
        count == spec_share_prompts(response@),
{
    match response {
        Response::Threshold(threshold) => *threshold,
        _ => Init::DEFAULT_THRESHOLD,
    }
}

} // verus!
