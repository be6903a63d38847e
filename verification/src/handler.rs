//! The dispatcher: one request in, one response out.
//!
//! Each request selects one operation of the share store, and whatever the
//! operation comes to is answered with exactly one response. A failure is
//! answered with `Error` and the text of the error. An attempt to unlock is
//! answered with `Success` however it ended; where it did unlock the store,
//! the caller is handed the lease of the master key, and is to end it when
//! its seconds have passed.
//!
//! The caller owns the socket, the lock around the store and the clock. It
//! hands in the bytes of a request, sends the bytes of the response, and
//! calls `ShareStore::expire` when a lease has run out.

use vstd::prelude::*;
use vstd::utf8::encode_utf8;
use crate::codec::spec_decode_message;
use crate::error::spec_message;
use crate::error::StoreError;
use crate::message::Action;
use crate::message::ActionView;
use crate::message::Init;
use crate::message::Response;
use crate::message::ResponseView;
use crate::store::outcome_of;
use crate::store::threshold_outcome;
use crate::store::unlock_outcome;
use crate::store::Outcome;
use crate::store::ShareStore;
use crate::store::StoreState;
use crate::store::UnlockStatus;
use crate::wire::decode_action;
use crate::wire::encode_response;
use crate::wire::parse_action;
use crate::wire::spec_response;

verus! {

/// The lifetime of the master key in memory, in seconds, where none is
/// given.
pub const DEFAULT_KEY_TIMEOUT: u64 = 20;

/// What handling `action` may do to the state `before`: `after` is the
/// state it leaves and `outcome` what the operation came to.
///
/// `GenShares` first writes the two counts to the configuration and then
/// generates the shares; where the first fails, the second is not tried.
pub open spec fn step(
    before: StoreState,
    action: ActionView,
    after: StoreState,
    outcome: Outcome,
) -> bool {
    match action {
        ActionView::Unlock => before.unlock_step(after, outcome),
        ActionView::Share(share) => after == before.with_share(share) && outcome
            == Outcome::Replied(ResponseView::Success),
        ActionView::GenShares(num_shares, threshold) => (outcome is Failed
            && before.initialize_step(num_shares, threshold, after, outcome)) || before.configured(
            num_shares,
            threshold,
        ).gen_shares_step(after, outcome),
        ActionView::Store(key, value) => before.store_step(
            key,
            encode_utf8(value),
            after,
            outcome,
        ),
        ActionView::Read(key) => after == before && before.read_step(key, outcome),
        ActionView::GetThreshold => after == before && before.threshold_step(outcome),
    }
}

/// The response that answers an operation which came to `outcome`.
pub open spec fn reply_of(outcome: Outcome) -> ResponseView {
    match outcome {
        Outcome::Replied(reply) => reply,
        Outcome::Unlock(_) => ResponseView::Success,
        Outcome::Failed(error) => ResponseView::Error(spec_message(error)),
    }
}

/// Whether the store is to be locked again later: exactly after an attempt
/// that unlocked it.
pub open spec fn arms(outcome: Outcome) -> bool {
    outcome == Outcome::Unlock(UnlockStatus::Unlocked)
}

/// The time for which the master key is held: when it has passed, the
/// caller is to call `expire` with the number of the lease.
#[derive(Clone, Copy, Debug, PartialEq, Eq, Structural)]
pub struct Lease {
    /// The seconds that the key is held for.
    pub seconds: u64,
    /// The number of the lease.
    pub epoch: u64,
}

/// A response, and the lease of the master key where the request unlocked
/// the store.
pub struct Handled {
    /// The response to send.
    pub response: Response,
    /// The lease that began, if one did.
    pub lock_after: Option<Lease>,
}

/// The bytes of a response, and the lease of the master key where the
/// request unlocked the store.
pub struct Reply {
    /// The bytes to send.
    pub bytes: Vec<u8>,
    /// The lease that began, if one did.
    pub lock_after: Option<Lease>,
}

/// The response to an operation that gave `result`.
pub fn response_of(result: Result<Response, StoreError>) -> (response: Response)
    ensures
        response@ == reply_of(outcome_of(result)),
{
    match result {
        Ok(response) => response,
        Err(error) => Response::Error(error.message()),
    }
}

/// Handles requests against a share store.
pub struct ActionHandler {
    key_timeout: u64,
}

impl ActionHandler {
    /// The lifetime of the master key as a specification value.
    pub closed spec fn spec_key_timeout(self) -> u64 {
        self.key_timeout
    }

    /// A handler that has the store locked `key_timeout` seconds after it
    /// was unlocked.
    pub fn new(key_timeout: u64) -> (handler: Self)
        ensures
            handler.spec_key_timeout() == key_timeout,
    {
        ActionHandler { key_timeout }
    }

    /// The lifetime of the master key in memory, in seconds.
    pub fn key_timeout(&self) -> (seconds: u64)
        ensures
            seconds == self.spec_key_timeout(),
    {
        self.key_timeout
    }

    /// Whether `response` and `lock_after` answer `action` in the state
    /// `before`, leaving the state `after`: they are what one of the
    /// outcomes that the request may come to calls for. The lease that
    /// begins with an unlock has the number that the store then has.
    pub open spec fn answers(
        self,
        before: StoreState,
        action: ActionView,
        after: StoreState,
        response: ResponseView,
        lock_after: Option<Lease>,
    ) -> bool {
        exists|outcome: Outcome| #[trigger]
            step(before, action, after, outcome) && response == reply_of(outcome) && lock_after
                == if arms(outcome) {
                Some(Lease { seconds: self.spec_key_timeout(), epoch: after.epoch })
            } else {
                None
            }
    }

    /// Carries out `message` on `store` and gives the one response to it.
    pub fn action_handler(&self, store: &mut ShareStore, message: Action) -> (handled: Handled)
        ensures
            self.answers(
                old(store)@,
                message@,
                final(store)@,
                handled.response@,
                handled.lock_after,
            ),
            old(store)@.consistent() ==> final(store)@.consistent(),
    {
        let ghost before = store@;
        match message {
            Action::GenShares(num_shares, threshold) => {
                let init = Init::new(num_shares, threshold);
                let configured = store.initialize(init);
                match configured {
                    Err(error) => {
                        let ghost outcome = Outcome::Failed(error@);
                        assert(step(before, message@, store@, outcome));
                        Handled { response: Response::Error(error.message()), lock_after: None }
                    },
                    Ok(_) => {
                        let result = store.gen_shares();
                        assert(step(before, message@, store@, outcome_of(result)));
                        Handled { response: response_of(result), lock_after: None }
                    },
                }
            },
            Action::Share(share) => {
                store.add_share(share.share());
                assert(step(before, message@, store@, Outcome::Replied(ResponseView::Success)));
                Handled { response: Response::Success, lock_after: None }
            },
            Action::Unlock => {
                let result = store.unlock();
                assert(step(before, message@, store@, unlock_outcome(result)));
                match result {
                    Ok(status) => {
                        let lock_after = match status {
                            UnlockStatus::Unlocked => Some(
                                Lease { seconds: self.key_timeout, epoch: store.epoch() },
                            ),
                            _ => None,
                        };
                        Handled { response: Response::Success, lock_after }
                    },
                    Err(error) => Handled {
                        response: Response::Error(error.message()),
                        lock_after: None,
                    },
                }
            },
            Action::Store(store_message) => {
                let (key, value): (String, String) = store_message.into_parts();
                let bytes = vstd::slice::slice_to_vec(value.as_str().as_bytes());
                let result = store.store(key.as_str(), bytes);
                assert(step(before, message@, store@, outcome_of(result)));
                Handled { response: response_of(result), lock_after: None }
            },
            Action::Read(key) => {
                let result = store.read(key.as_str());
                assert(step(before, message@, store@, outcome_of(result)));
                Handled { response: response_of(result), lock_after: None }
            },
            Action::GetThreshold => {
                let result = store.get_threshold();
                assert(step(before, message@, store@, threshold_outcome(result)));
                match result {
                    Ok(threshold) => Handled {
                        response: Response::Threshold(threshold),
                        lock_after: None,
                    },
                    Err(error) => Handled {
                        response: Response::Error(error.message()),
                        lock_after: None,
                    },
                }
            },
        }
    }

    /// Decodes the request in `request`, carries it out on `store` and
    /// gives the bytes of the one response to it. Bytes that are no request
    /// are answered with `Error` and leave the store as it is.
    pub fn handle_request(&self, store: &mut ShareStore, request: &[u8]) -> (reply: Reply)
        ensures
            match parse_action(request@) {
                Ok((action, _)) => exists|response: ResponseView| #[trigger]
                    self.answers(old(store)@, action, final(store)@, response, reply.lock_after)
                        && reply.bytes@ == spec_response(response),
                Err(e) => final(store)@ == old(store)@ && reply.lock_after is None
                    && reply.bytes@ == spec_response(ResponseView::Error(spec_decode_message(e))),
            },
            old(store)@.consistent() ==> final(store)@.consistent(),
    {
        match decode_action(request) {
            Ok((action, _)) => {
                let handled = self.action_handler(store, action);
                let bytes = encode_response(&handled.response);
                Reply { bytes, lock_after: handled.lock_after }
            },
            Err(error) => {
                let response = Response::Error(error.message());
                Reply { bytes: encode_response(&response), lock_after: None }
            },
        }
    }
}

impl Default for ActionHandler {
    /// A handler with a key lifetime of 20 seconds.
    fn default() -> (handler: Self)
        ensures
            handler.spec_key_timeout() == DEFAULT_KEY_TIMEOUT,
    {
        ActionHandler { key_timeout: DEFAULT_KEY_TIMEOUT }
    }
}

} // verus!
