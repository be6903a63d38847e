//! What holds of the store whatever requests arrive, stated over the
//! relations that the contracts of the store and of the dispatcher use.
//!
//! The database can fail at any read or write. A law that says what an
//! operation answers therefore allows, beside the answer, a failure of the
//! database.

use vstd::prelude::*;
use vstd::utf8::encode_utf8;
use vstd::utf8::encode_utf8_decode_utf8;
use vstd::utf8::encode_utf8_valid_utf8;
use crate::db::check_key;
use crate::db::initialized_key;
use crate::db::lemma_config_keys_differ;
use crate::db::lookup;
use crate::error::spec_message;
use crate::error::StoreErrorView;
use crate::handler::reply_of;
use crate::handler::step;
use crate::key::is_quorum;
use crate::message::ActionView;
use crate::message::ResponseView;
use crate::store::Outcome;
use crate::store::StoreState;
use crate::store::UnlockStatus;
use crate::values::lemma_bool_row_roundtrip;

verus! {

/// The outcome is a failure of the database.
pub open spec fn storage_failed(outcome: Outcome) -> bool {
    outcome matches Outcome::Failed(e) && e is Storage
}

/// After shares were generated, any quorum of them unlocks the store: with
/// exactly the shares of a quorum handed in and the sentinel as it was
/// written, an attempt to unlock leaves the store unlocked, unless the
/// database fails.
pub proof fn law_quorum_unlocks(
    fresh: StoreState,
    generated: StoreState,
    shares: Seq<Seq<char>>,
    quorum: Seq<Seq<char>>,
    before: StoreState,
    after: StoreState,
    outcome: Outcome,
)
    requires
        fresh.gen_shares_step(generated, Outcome::Replied(ResponseView::Shares(shares))),
        is_quorum(quorum, shares, fresh.threshold()),
        before.shares == quorum,
        lookup(before.values, check_key()) == lookup(generated.values, check_key()),
        before.unlock_step(after, outcome),
    ensures
        outcome == Outcome::Unlock(UnlockStatus::Unlocked) || storage_failed(outcome),
        outcome == Outcome::Unlock(UnlockStatus::Unlocked) ==> after.is_unlocked(),
{
}

/// The counts that were written to the configuration are the counts that
/// it gives.
pub proof fn law_configured_counts(before: StoreState, num_shares: u8, threshold: u8)
    ensures
        before.configured(num_shares, threshold).threshold() == threshold,
        crate::store::count_of(
            lookup(before.configured(num_shares, threshold).config, crate::db::num_shares_key()),
            crate::message::Init::DEFAULT_NUM_SHARES,
        ) == Ok::<u8, StoreErrorView>(num_shares),
{
    lemma_config_keys_differ();
    crate::values::lemma_u8_row_roundtrip(num_shares);
    crate::values::lemma_u8_row_roundtrip(threshold);
}

/// A request for `num_shares` shares with the threshold `threshold` that
/// is answered with shares is answered with `num_shares` of them, no two
/// the same, and any `threshold` of them unlock the store: with exactly the
/// shares of a quorum handed in and the sentinel as it was written, a
/// request to unlock leaves the store unlocked, unless the database fails.
pub proof fn law_generated_shares_unlock(
    before: StoreState,
    num_shares: u8,
    threshold: u8,
    generated: StoreState,
    outcome: Outcome,
    shares: Seq<Seq<char>>,
    quorum: Seq<Seq<char>>,
    locked: StoreState,
    after: StoreState,
    result: Outcome,
)
    requires
        step(before, ActionView::GenShares(num_shares, threshold), generated, outcome),
        reply_of(outcome) == ResponseView::Shares(shares),
        is_quorum(quorum, shares, threshold),
        locked.shares == quorum,
        lookup(locked.values, check_key()) == lookup(generated.values, check_key()),
        step(locked, ActionView::Unlock, after, result),
    ensures
        shares.len() == num_shares,
        shares.no_duplicates(),
        0 < threshold <= num_shares,
        result == Outcome::Unlock(UnlockStatus::Unlocked) || storage_failed(result),
        result == Outcome::Unlock(UnlockStatus::Unlocked) ==> after.is_unlocked(),
        reply_of(result) == ResponseView::Success || storage_failed(result),
{
    law_configured_counts(before, num_shares, threshold);
    let configured = before.configured(num_shares, threshold);
    law_quorum_unlocks(configured, generated, shares, quorum, locked, after, result);
}

/// A value that was stored is read back: while the store holds the same
/// master key and the row under the key is the one that the store wrote,
/// reading the key gives the text that was stored, unless the database
/// fails.
pub proof fn law_read_after_store(
    before: StoreState,
    key: Seq<char>,
    text: Seq<char>,
    stored: StoreState,
    later: StoreState,
    outcome: Outcome,
)
    requires
        before.stored(key, encode_utf8(text), stored),
        later.key == stored.key,
        lookup(later.values, key) == lookup(stored.values, key),
        later.read_step(key, outcome),
    ensures
        outcome == Outcome::Replied(ResponseView::Value(Some(text))) || storage_failed(outcome),
{
    encode_utf8_valid_utf8(text);
    encode_utf8_decode_utf8(text);
}

/// A text that a request stored is what a request to read answers: after
/// `Store` was answered with `Success`, and while the store holds the same
/// master key and the row under the key is the one that was written, `Read`
/// of the key is answered with the text, unless the database fails.
pub proof fn law_stored_text_is_read(
    before: StoreState,
    key: Seq<char>,
    text: Seq<char>,
    stored: StoreState,
    outcome: Outcome,
    later: StoreState,
    after: StoreState,
    result: Outcome,
)
    requires
        step(before, ActionView::Store(key, text), stored, outcome),
        reply_of(outcome) == ResponseView::Success,
        later.key == stored.key,
        lookup(later.values, key) == lookup(stored.values, key),
        step(later, ActionView::Read(key), after, result),
    ensures
        reply_of(result) == ResponseView::Value(Some(text)) || storage_failed(result),
        after == later,
{
    law_store_success(before, key, text, stored, outcome);
    law_read_after_store(before, key, text, stored, later, result);
}

/// A store request that is answered with `Success` has stored the value.
pub proof fn law_store_success(
    before: StoreState,
    key: Seq<char>,
    text: Seq<char>,
    after: StoreState,
    outcome: Outcome,
)
    requires
        step(before, ActionView::Store(key, text), after, outcome),
        reply_of(outcome) == ResponseView::Success,
    ensures
        before.stored(key, encode_utf8(text), after),
{
}

/// A store with no configuration is consistent.
pub proof fn law_empty_consistent(state: StoreState)
    requires
        !state.config.contains_key(initialized_key()),
    ensures
        state.consistent(),
{
}

/// An initialised store has its sentinel row, and no request undoes that:
/// every request leaves a consistent store consistent, whatever it comes to.
pub proof fn law_consistency_kept(
    before: StoreState,
    action: ActionView,
    after: StoreState,
    outcome: Outcome,
)
    requires
        before.consistent(),
        step(before, action, after, outcome),
    ensures
        after.consistent(),
{
    lemma_config_keys_differ();
}

/// A store with empty tables and no master key is initialised exactly if
/// it has its sentinel row: it is neither.
pub proof fn law_empty_sound(state: StoreState)
    requires
        state.config == Map::<Seq<char>, Seq<u8>>::empty(),
        state.values == Map::<Seq<char>, Seq<u8>>::empty(),
        !state.is_unlocked(),
    ensures
        state.sound(),
{
}

/// The sentinel row is there exactly if the store is initialised, and a
/// store that holds the master key has it: every request keeps that so,
/// whatever it comes to.
pub proof fn law_soundness_kept(
    before: StoreState,
    action: ActionView,
    after: StoreState,
    outcome: Outcome,
)
    requires
        before.sound(),
        step(before, action, after, outcome),
    ensures
        after.sound(),
{
    lemma_config_keys_differ();
    lemma_bool_row_roundtrip(true);
}

/// Once the store is initialised it stays so: no request takes the mark
/// away.
pub proof fn law_initialized_kept(
    before: StoreState,
    action: ActionView,
    after: StoreState,
    outcome: Outcome,
)
    requires
        before.initialized(),
        step(before, action, after, outcome),
    ensures
        after.initialized(),
{
    lemma_config_keys_differ();
    lemma_bool_row_roundtrip(true);
}

/// A locked store refuses to store: the request is answered with the
/// error `Store not unlocked`, and the store is left as it was.
pub proof fn law_store_locked(
    before: StoreState,
    key: Seq<char>,
    text: Seq<char>,
    after: StoreState,
    outcome: Outcome,
)
    requires
        !before.is_unlocked(),
        step(before, ActionView::Store(key, text), after, outcome),
    ensures
        outcome == Outcome::Failed(StoreErrorView::StoreNotUnlocked),
        reply_of(outcome) == ResponseView::Error(spec_message(StoreErrorView::StoreNotUnlocked)),
        after == before,
{
}

/// A locked store refuses to read: the request is answered with the error
/// `Store not unlocked`.
pub proof fn law_read_locked(
    before: StoreState,
    key: Seq<char>,
    after: StoreState,
    outcome: Outcome,
)
    requires
        !before.is_unlocked(),
        step(before, ActionView::Read(key), after, outcome),
    ensures
        outcome == Outcome::Failed(StoreErrorView::StoreNotUnlocked),
        reply_of(outcome) == ResponseView::Error(spec_message(StoreErrorView::StoreNotUnlocked)),
        after == before,
{
}

/// Reading a key under which the value table holds nothing is answered
/// with `KeyNotFound` by an unlocked store, unless the database fails.
pub proof fn law_read_missing(
    before: StoreState,
    key: Seq<char>,
    after: StoreState,
    outcome: Outcome,
)
    requires
        before.is_unlocked(),
        !before.values.contains_key(key),
        step(before, ActionView::Read(key), after, outcome),
    ensures
        outcome == Outcome::Replied(ResponseView::KeyNotFound) || storage_failed(outcome),
        reply_of(outcome) == ResponseView::KeyNotFound || storage_failed(outcome),
        after == before,
{
}

/// A key under which nothing was stored holds nothing: only a request to
/// store under `key`, and for the sentinel's key the generation of shares,
/// changes the row under `key`.
pub proof fn law_row_kept(
    before: StoreState,
    action: ActionView,
    after: StoreState,
    outcome: Outcome,
    key: Seq<char>,
)
    requires
        step(before, action, after, outcome),
        !(action matches ActionView::Store(stored, _) && stored == key),
        !(action is GenShares && key == check_key()),
    ensures
        lookup(after.values, key) == lookup(before.values, key),
{
}

/// A locked store stays locked until an attempt to unlock succeeds: the
/// only request that leaves a locked store unlocked is an `Unlock` whose
/// shares combine to a key that opens the sentinel.
pub proof fn law_locked_until_unlock(
    before: StoreState,
    action: ActionView,
    after: StoreState,
    outcome: Outcome,
)
    requires
        !before.is_unlocked(),
        step(before, action, after, outcome),
        after.is_unlocked(),
    ensures
        action is Unlock,
        outcome == Outcome::Unlock(UnlockStatus::Unlocked),
        crate::store::shares_status(before.shares, before.values) == UnlockStatus::Unlocked,
{
}

/// Generating shares again changes nothing: on an initialised store whose
/// configuration holds the counts that are asked for, the request is
/// answered with `AlreadyInitialized` and leaves the store as it was, unless
/// the database fails.
pub proof fn law_already_initialized(
    before: StoreState,
    num_shares: u8,
    threshold: u8,
    after: StoreState,
    outcome: Outcome,
)
    requires
        before.initialized(),
        lookup(before.config, crate::db::num_shares_key()) == Some(
            crate::values::u8_row(num_shares),
        ),
        lookup(before.config, crate::db::threshold_key()) == Some(
            crate::values::u8_row(threshold),
        ),
        step(before, ActionView::GenShares(num_shares, threshold), after, outcome),
    ensures
        outcome == Outcome::Replied(ResponseView::AlreadyInitialized) || storage_failed(outcome),
        after == before,
{
    lemma_config_keys_differ();
    let half = before.half_configured(num_shares);
    let configured = before.configured(num_shares, threshold);
    assert(half.config =~= before.config);
    assert(configured.config =~= before.config);
}

/// An initialised store never hands out shares again, whatever counts are
/// asked for, and keeps its value table.
pub proof fn law_shares_only_once(
    before: StoreState,
    num_shares: u8,
    threshold: u8,
    after: StoreState,
    outcome: Outcome,
)
    requires
        before.initialized(),
        step(before, ActionView::GenShares(num_shares, threshold), after, outcome),
    ensures
        outcome == Outcome::Replied(ResponseView::AlreadyInitialized) || storage_failed(outcome),
        after.values == before.values,
        after.key == before.key,
{
    lemma_config_keys_differ();
}

/// Writing the counts twice is writing them once.
pub proof fn law_initialize_idempotent(before: StoreState, num_shares: u8, threshold: u8)
    ensures
        before.configured(num_shares, threshold).configured(num_shares, threshold)
            == before.configured(num_shares, threshold),
{
    let once = before.configured(num_shares, threshold);
    let twice = once.configured(num_shares, threshold);
    assert(twice.config =~= once.config);
}

/// Dropping the master key twice is dropping it once.
pub proof fn law_clear_key_idempotent(before: StoreState)
    ensures
        before.locked().locked() == before.locked(),
{
}

/// When the lease that an unlock began runs out, the store is locked, if
/// it was not unlocked again in between.
pub proof fn law_lease_locks(
    before: StoreState,
    unlocked: StoreState,
    outcome: Outcome,
    later: StoreState,
)
    requires
        step(before, ActionView::Unlock, unlocked, outcome),
        crate::handler::arms(outcome),
        later.epoch == unlocked.epoch,
    ensures
        !later.expired(unlocked.epoch).is_unlocked(),
{
}

/// A lease that has been followed by another does not lock the store: the
/// key that a later unlock brought stays until its own lease runs out.
pub proof fn law_renewed_lease_holds(
    first: StoreState,
    before: StoreState,
    renewed: StoreState,
    outcome: Outcome,
)
    requires
        before.epoch == first.epoch,
        step(before, ActionView::Unlock, renewed, outcome),
        crate::handler::arms(outcome),
    ensures
        renewed.expired(first.epoch) == renewed,
        renewed.is_unlocked(),
{
}

/// Only an unlock begins a new lease: every other request, and every
/// attempt that does not unlock, leaves the number of the lease as it was.
pub proof fn law_epoch_kept(
    before: StoreState,
    action: ActionView,
    after: StoreState,
    outcome: Outcome,
)
    requires
        step(before, action, after, outcome),
        !crate::handler::arms(outcome),
    ensures
        after.epoch == before.epoch,
{
}

/// Dropping the master key locks the store, whatever state it was in.
pub proof fn law_clear_key_locks(before: StoreState)
    ensures
        !before.locked().is_unlocked(),
        before.locked().shares == before.shares,
        before.locked().config == before.config,
        before.locked().values == before.values,
{
}

/// Every attempt to unlock empties the share buffer, however it ends.
pub proof fn law_unlock_clears_shares(before: StoreState, after: StoreState, outcome: Outcome)
    requires
        step(before, ActionView::Unlock, after, outcome),
    ensures
        after.shares.len() == 0,
        reply_of(outcome) == ResponseView::Success || storage_failed(outcome),
{
}

} // verus!
