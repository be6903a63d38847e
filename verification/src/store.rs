//! The share store: the state machine behind every request.
//!
//! A store is *uninitialised* until shares are generated, then *locked*
//! until a quorum of shares unlocks it, and *unlocked* while it holds the
//! master key. It holds the shares handed in so far, the master key while
//! unlocked, and the database.
//!
//! The state that the contracts speak of is [`StoreState`]: the share
//! buffer, the master key and the rows of the two tables.

use vstd::prelude::*;
use vstd::utf8::decode_utf8;
use vstd::utf8::valid_utf8;
use redb::Database;
use crate::codec::text_from_utf8;
use crate::db::check_key;
use crate::db::config_rows;
use crate::db::initialized_key;
use crate::db::lemma_config_keys_differ;
use crate::db::lookup;
use crate::db::num_shares_key;
use crate::db::read_config;
use crate::db::read_value;
use crate::db::row_view;
use crate::db::storage_message;
use crate::db::threshold_key;
use crate::db::value_rows;
use crate::db::write_config;
use crate::db::write_value;
use crate::db::write_value_and_config;
use crate::error::StoreError;
use crate::error::StoreErrorView;
use crate::key::can_split;
use crate::key::is_quorum;
use crate::key::shamir_combine;
use crate::key::shamir_combined;
use crate::key::shares_of;
use crate::key::split_secret;
use crate::message::Init;
use crate::message::Response;
use crate::message::ResponseView;
use crate::message::Shares;
use crate::seal::aead_open;
use crate::seal::aead_opened;
use crate::seal::aead_seal;
use crate::seal::random_bytes;
use crate::seal::zeroize;
use crate::seal::MasterKey;
use crate::seal::KEY_LEN;
use crate::values::bool_row;
use crate::values::row_bool;
use crate::values::row_sealed;
use crate::values::row_u8;
use crate::values::u8_row;
use crate::values::ConfigVal;
use crate::values::StoredValue;
use crate::values::NONCE_LEN;
use crate::values::TAG_LEN;

verus! {

/// The plaintext of the sentinel row: the ASCII bytes of `CHECK_KEY`.
pub open spec fn check_plaintext() -> Seq<u8> {
    seq![67u8, 72u8, 69u8, 67u8, 75u8, 95u8, 75u8, 69u8, 89u8]
}

/// The plaintext of the sentinel is the text of its key, in UTF-8.
pub proof fn lemma_check_plaintext_is_its_key()
    ensures
        check_plaintext() == vstd::utf8::encode_utf8(check_key()),
{
    reveal_strlit("CHECK_KEY");
    let text = check_key();
    vstd::utf8::is_ascii_chars_encode_utf8(text);
}

/// What opening a value row with `key` gives: the plaintext, or nothing
/// where the row is too short to hold a nonce or does not authenticate.
pub open spec fn row_opened(key: Seq<u8>, row: Seq<u8>) -> Option<Seq<u8>> {
    match row_sealed(row) {
        None => None,
        Some((nonce, sealed)) => aead_opened(key, nonce, sealed),
    }
}

/// How an attempt to unlock ended.
#[derive(Clone, Copy, Debug, PartialEq, Eq, Structural)]
pub enum UnlockStatus {
    /// The shares combined to a key that opens the sentinel: the store is
    /// unlocked with it.
    Unlocked,
    /// The shares combined to a key that does not open the sentinel.
    Rejected,
    /// The store holds no sentinel: it was never initialised.
    NoCheckKey,
    /// The shares did not combine to any key.
    NoCandidate,
}

/// How an attempt to unlock with the candidate `key` ends when the
/// sentinel row is `row`.
pub open spec fn candidate_status(key: Seq<u8>, row: Option<Seq<u8>>) -> UnlockStatus {
    match row {
        None => UnlockStatus::NoCheckKey,
        Some(bytes) => if row_opened(key, bytes) == Some(check_plaintext()) {
            UnlockStatus::Unlocked
        } else {
            UnlockStatus::Rejected
        },
    }
}

/// How an attempt to unlock with the shares `shares` ends when the value
/// table is `values`.
pub open spec fn shares_status(
    shares: Seq<Seq<char>>,
    values: Map<Seq<char>, Seq<u8>>,
) -> UnlockStatus {
    match shamir_combined(shares) {
        None => UnlockStatus::NoCandidate,
        Some(key) => candidate_status(key, lookup(values, check_key())),
    }
}

/// The flag that a row of the configuration table stands for: `false`
/// where there is no row, and an error where the row holds no boolean.
pub open spec fn flag_of(row: Option<Seq<u8>>) -> Result<bool, StoreErrorView> {
    match row {
        None => Ok(false),
        Some(bytes) => match row_bool(bytes) {
            Some(flag) => Ok(flag),
            None => Err(StoreErrorView::Corrupt),
        },
    }
}

/// The count that a row of the configuration table stands for: `default`
/// where there is no row, and an error where the row holds no `u8`.
pub open spec fn count_of(row: Option<Seq<u8>>, default: u8) -> Result<u8, StoreErrorView> {
    match row {
        None => Ok(default),
        Some(bytes) => match row_u8(bytes) {
            Some(count) => Ok(count),
            None => Err(StoreErrorView::Corrupt),
        },
    }
}

/// The state of a share store.
pub struct StoreState {
    /// The shares handed in since the last attempt to unlock, in their order.
    pub shares: Seq<Seq<char>>,
    /// The master key, while the store is unlocked.
    pub key: Option<Seq<u8>>,
    /// The rows of the configuration table.
    pub config: Map<Seq<char>, Seq<u8>>,
    /// The rows of the value table.
    pub values: Map<Seq<char>, Seq<u8>>,
    /// How often the store was unlocked so far: the number of the lease
    /// that the master key is held under.
    pub epoch: u64,
}

/// The number of the lease that follows the lease `epoch`.
pub open spec fn next_epoch(epoch: u64) -> u64 {
    if epoch == u64::MAX {
        0
    } else {
        (epoch + 1) as u64
    }
}

impl StoreState {
    /// The store holds the master key.
    pub open spec fn is_unlocked(self) -> bool {
        self.key is Some
    }

    /// The configuration says that shares were generated.
    pub open spec fn initialized(self) -> bool {
        flag_of(lookup(self.config, initialized_key())) == Ok::<bool, StoreErrorView>(true)
    }

    /// The configuration says that no shares were generated yet: it has no
    /// flag, or one that is `false`.
    pub open spec fn uninitialized(self) -> bool {
        flag_of(lookup(self.config, initialized_key())) == Ok::<bool, StoreErrorView>(false)
    }

    /// An initialised store has its sentinel row.
    pub open spec fn consistent(self) -> bool {
        self.initialized() ==> self.values.contains_key(check_key())
    }

    /// The store is initialised exactly if it has its sentinel row, and it
    /// holds the master key only if it has one.
    pub open spec fn sound(self) -> bool {
        &&& self.initialized() <==> self.values.contains_key(check_key())
        &&& self.is_unlocked() ==> self.values.contains_key(check_key())
    }

    /// The threshold that the configuration gives: 3 where it gives none.
    pub open spec fn threshold(self) -> u8 {
        match count_of(lookup(self.config, threshold_key()), Init::DEFAULT_THRESHOLD) {
            Ok(threshold) => threshold,
            Err(_) => Init::DEFAULT_THRESHOLD,
        }
    }

    /// This state with `share` behind the shares handed in.
    pub open spec fn with_share(self, share: Seq<char>) -> StoreState {
        StoreState { shares: self.shares.push(share), ..self }
    }

    /// This state without the master key.
    pub open spec fn locked(self) -> StoreState {
        StoreState { key: None, ..self }
    }

    /// This state once the lease `epoch` has run out: without the master
    /// key where the key is held under that lease, and as it is where the
    /// store was unlocked again since.
    pub open spec fn expired(self, epoch: u64) -> StoreState {
        if epoch == self.epoch {
            self.locked()
        } else {
            self
        }
    }

    /// This state with `num_shares` and `threshold` written to the
    /// configuration.
    pub open spec fn configured(self, num_shares: u8, threshold: u8) -> StoreState {
        StoreState {
            config: self.config.insert(num_shares_key(), u8_row(num_shares)).insert(
                threshold_key(),
                u8_row(threshold),
            ),
            ..self
        }
    }

    /// This state with `num_shares` written to the configuration, and the
    /// threshold as it was.
    pub open spec fn half_configured(self, num_shares: u8) -> StoreState {
        StoreState { config: self.config.insert(num_shares_key(), u8_row(num_shares)), ..self }
    }

    /// `after` is this state once a sentinel that `key` opens has been
    /// written and the store marked as initialised, in one step. The
    /// sentinel's row is a nonce, the ciphertext and its tag.
    pub open spec fn installed(self, key: Seq<u8>, after: StoreState) -> bool {
        &&& after.shares == self.shares
        &&& after.key == self.key
        &&& after.epoch == self.epoch
        &&& after.config == self.config.insert(initialized_key(), bool_row(true))
        &&& after.values.contains_key(check_key())
        &&& after.values == self.values.insert(check_key(), after.values[check_key()])
        &&& after.values[check_key()].len() == NONCE_LEN + check_plaintext().len() + TAG_LEN
        &&& row_opened(key, after.values[check_key()]) == Some(check_plaintext())
    }

    /// `after` is this state once `value` has been sealed under the master
    /// key and written under `key`: the row is a nonce, the ciphertext and
    /// its tag, and the master key opens it to `value`.
    pub open spec fn stored(self, key: Seq<char>, value: Seq<u8>, after: StoreState) -> bool {
        &&& self.key matches Some(master)
        &&& after.shares == self.shares
        &&& after.key == self.key
        &&& after.epoch == self.epoch
        &&& after.config == self.config
        &&& after.values.contains_key(key)
        &&& after.values == self.values.insert(key, after.values[key])
        &&& after.values[key].len() == NONCE_LEN + value.len() + TAG_LEN
        &&& row_opened(master, after.values[key]) == Some(value)
    }

    /// `after` is this state once shares `shares` of a fresh master key
    /// have been handed out: the sentinel is written, the store is marked
    /// as initialised, and every quorum of the shares unlocks it.
    pub open spec fn shared_out(self, shares: Seq<Seq<char>>, after: StoreState) -> bool {
        &&& after.shares == self.shares
        &&& after.key == self.key
        &&& after.epoch == self.epoch
        &&& after.config == self.config.insert(initialized_key(), bool_row(true))
        &&& after.values.contains_key(check_key())
        &&& after.values == self.values.insert(check_key(), after.values[check_key()])
        &&& shares.no_duplicates()
        &&& count_of(lookup(self.config, num_shares_key()), Init::DEFAULT_NUM_SHARES)
            matches Ok(num_shares) && shares.len() == num_shares
        &&& count_of(lookup(self.config, threshold_key()), Init::DEFAULT_THRESHOLD) is Ok
        &&& 0 < self.threshold() <= shares.len()
        &&& forall|quorum: Seq<Seq<char>>| #[trigger]
            is_quorum(quorum, shares, self.threshold()) ==> shares_status(quorum, after.values)
                == UnlockStatus::Unlocked
    }

    /// `after` is this state once the sentinel has been written and the
    /// store marked as initialised.
    pub open spec fn marked(self, after: StoreState) -> bool {
        &&& after.shares == self.shares
        &&& after.key == self.key
        &&& after.epoch == self.epoch
        &&& after.config == self.config.insert(initialized_key(), bool_row(true))
        &&& after.values.contains_key(check_key())
        &&& after.values == self.values.insert(check_key(), after.values[check_key()])
    }

    /// The configuration asks for shares that cannot be made: no share, a
    /// threshold of zero, or a threshold above the number of shares.
    pub open spec fn counts_refused(self) -> bool {
        &&& count_of(lookup(self.config, num_shares_key()), Init::DEFAULT_NUM_SHARES)
            matches Ok(num_shares)
        &&& count_of(lookup(self.config, threshold_key()), Init::DEFAULT_THRESHOLD)
            matches Ok(threshold)
        &&& !(0 < threshold <= num_shares)
    }

    /// The configuration cannot be read: the flag, the number of shares or
    /// the threshold is a row that does not hold what it should.
    pub open spec fn config_corrupt(self) -> bool {
        ||| flag_of(lookup(self.config, initialized_key())) is Err
        ||| count_of(lookup(self.config, num_shares_key()), Init::DEFAULT_NUM_SHARES) is Err
        ||| count_of(lookup(self.config, threshold_key()), Init::DEFAULT_THRESHOLD) is Err
    }

    /// What `initialize` with `num_shares` and `threshold` may do to this
    /// state: `after` is the state it leaves and `outcome` what it returns.
    pub open spec fn initialize_step(
        self,
        num_shares: u8,
        threshold: u8,
        after: StoreState,
        outcome: Outcome,
    ) -> bool {
        match outcome {
            Outcome::Replied(reply) => reply == ResponseView::Success && after == self.configured(
                num_shares,
                threshold,
            ),
            Outcome::Failed(e) => e is Storage && (after == self || after == self.half_configured(
                num_shares,
            ) || after == self.configured(num_shares, threshold)),
            _ => false,
        }
    }

    /// What `gen_shares` may do to this state.
    pub open spec fn gen_shares_step(self, after: StoreState, outcome: Outcome) -> bool {
        &&& self.initialized() ==> after == self && (outcome == Outcome::Replied(
            ResponseView::AlreadyInitialized,
        ) || (outcome matches Outcome::Failed(e) && e is Storage))
        &&& match outcome {
            Outcome::Replied(ResponseView::AlreadyInitialized) => self.initialized() && after
                == self,
            Outcome::Replied(ResponseView::Shares(shares)) => self.uninitialized()
                && self.shared_out(shares, after),
            Outcome::Failed(StoreErrorView::Corrupt) => after == self && self.config_corrupt(),
            Outcome::Failed(StoreErrorView::ShareGeneration) => after == self
                && self.uninitialized() && self.counts_refused(),
            Outcome::Failed(StoreErrorView::Crypto) => after == self && self.uninitialized(),
            Outcome::Failed(StoreErrorView::Storage(_)) => after == self || (self.uninitialized()
                && self.marked(after)),
            _ => false,
        }
    }

    /// What `get_threshold` may return in this state.
    pub open spec fn threshold_step(self, outcome: Outcome) -> bool {
        match outcome {
            Outcome::Replied(ResponseView::Threshold(threshold)) => threshold == self.threshold(),
            Outcome::Failed(e) => e is Storage,
            _ => false,
        }
    }

    /// What `unlock` may do to this state.
    pub open spec fn unlock_step(self, after: StoreState, outcome: Outcome) -> bool {
        &&& after.shares == Seq::<Seq<char>>::empty()
        &&& after.config == self.config
        &&& after.values == self.values
        &&& match outcome {
            Outcome::Unlock(status) => status == shares_status(self.shares, self.values)
                && if status == UnlockStatus::Unlocked {
                after.key == shamir_combined(self.shares) && after.epoch == next_epoch(
                    self.epoch,
                )
            } else {
                after.key == self.key && after.epoch == self.epoch
            },
            Outcome::Failed(e) => e is Storage && shamir_combined(self.shares) is Some
                && after.key == self.key && after.epoch == self.epoch,
            _ => false,
        }
    }

    /// What `store` of `value` under `key` may do to this state.
    pub open spec fn store_step(
        self,
        key: Seq<char>,
        value: Seq<u8>,
        after: StoreState,
        outcome: Outcome,
    ) -> bool {
        match outcome {
            Outcome::Replied(reply) => reply == ResponseView::Success && self.stored(
                key,
                value,
                after,
            ),
            Outcome::Failed(StoreErrorView::StoreNotUnlocked) => !self.is_unlocked() && after
                == self,
            Outcome::Failed(StoreErrorView::Crypto) => self.is_unlocked() && after == self,
            Outcome::Failed(StoreErrorView::Storage(_)) => self.is_unlocked() && (after == self
                || self.stored(key, value, after)),
            _ => false,
        }
    }

    /// What reading `key` gives in this state, when the database answers.
    pub open spec fn read_result(self, key: Seq<char>) -> Outcome {
        match self.key {
            None => Outcome::Failed(StoreErrorView::StoreNotUnlocked),
            Some(master) => row_result(master, lookup(self.values, key)),
        }
    }

    /// What `read` of `key` may return in this state.
    pub open spec fn read_step(self, key: Seq<char>, outcome: Outcome) -> bool {
        outcome == self.read_result(key) || (self.is_unlocked() && (outcome matches Outcome::Failed(
            e,
        ) && e is Storage))
    }
}

/// What an operation of the store came to.
pub enum Outcome {
    /// The operation gives this response.
    Replied(ResponseView),
    /// An attempt to unlock ended in this way.
    Unlock(UnlockStatus),
    /// The operation failed with this error.
    Failed(StoreErrorView),
}

/// What reading gives when the master key is `master` and the row under the
/// key asked for is `row`.
pub open spec fn row_result(master: Seq<u8>, row: Option<Seq<u8>>) -> Outcome {
    match row {
        None => Outcome::Replied(ResponseView::KeyNotFound),
        Some(bytes) => match row_opened(master, bytes) {
            None => Outcome::Failed(StoreErrorView::Crypto),
            Some(plaintext) => if valid_utf8(plaintext) {
                Outcome::Replied(ResponseView::Value(Some(decode_utf8(plaintext))))
            } else {
                Outcome::Failed(StoreErrorView::Corrupt)
            },
        },
    }
}

/// The outcome that a result with a response stands for.
pub open spec fn outcome_of(r: Result<Response, StoreError>) -> Outcome {
    match r {
        Ok(response) => Outcome::Replied(response@),
        Err(error) => Outcome::Failed(error@),
    }
}

/// The outcome that a result of `unlock` stands for.
pub open spec fn unlock_outcome(r: Result<UnlockStatus, StoreError>) -> Outcome {
    match r {
        Ok(status) => Outcome::Unlock(status),
        Err(error) => Outcome::Failed(error@),
    }
}

/// The outcome that a result of `get_threshold` stands for.
pub open spec fn threshold_outcome(r: Result<u8, StoreError>) -> Outcome {
    match r {
        Ok(threshold) => Outcome::Replied(ResponseView::Threshold(threshold)),
        Err(error) => Outcome::Failed(error@),
    }
}

/// The 9 bytes of the sentinel's plaintext.
pub fn check_plaintext_bytes() -> (bytes: Vec<u8>)
    ensures
        bytes@ == check_plaintext(),
{
    proof {
        lemma_check_plaintext_is_its_key();
    }
    vstd::slice::slice_to_vec("CHECK_KEY".as_bytes())
}

/// Whether `plaintext` is the sentinel's plaintext.
pub fn is_check_plaintext(plaintext: &[u8]) -> (b: bool)
    ensures
        b == (plaintext@ == check_plaintext()),
{
    let expected = check_plaintext_bytes();
    if plaintext.len() != expected.len() {
        return false;
    }
    let mut i: usize = 0;
    while i < expected.len()
        invariant
            i <= expected@.len(),
            expected@ == check_plaintext(),
            plaintext@.len() == expected@.len(),
            forall|j: int| 0 <= j < i ==> plaintext@[j] == expected@[j],
        decreases expected@.len() - i,
    {
        if plaintext[i] != expected[i] {
            return false;
        }
        i = i + 1;
    }
    assert(plaintext@ =~= check_plaintext());
    true
}

/// The flag that `row` of the configuration table stands for.
pub fn flag_of_row(row: &Option<Vec<u8>>) -> (r: Result<bool, StoreError>)
    ensures
        match flag_of(row_view(*row)) {
            Ok(flag) => r == Ok::<bool, StoreError>(flag),
            Err(e) => r matches Err(f) && f@ == e,
        },
{
    match row {
        None => Ok(false),
        Some(bytes) => match ConfigVal::from_bytes(bytes.as_slice()) {
            None => Err(StoreError::Corrupt),
            Some(val) => match val.to_bool() {
                Some(flag) => Ok(flag),
                None => Err(StoreError::Corrupt),
            },
        },
    }
}

/// The count that `row` of the configuration table stands for, `default`
/// where there is no row.
pub fn count_of_row(row: &Option<Vec<u8>>, default: u8) -> (r: Result<u8, StoreError>)
    ensures
        match count_of(row_view(*row), default) {
            Ok(count) => r == Ok::<u8, StoreError>(count),
            Err(e) => r matches Err(f) && f@ == e,
        },
{
    match row {
        None => Ok(default),
        Some(bytes) => match ConfigVal::from_bytes(bytes.as_slice()) {
            None => Err(StoreError::Corrupt),
            Some(val) => match val.to_u8() {
                Some(count) => Ok(count),
                None => Err(StoreError::Corrupt),
            },
        },
    }
}

/// Opens the value row `row` with `key`.
pub fn open_row(key: &[u8], row: &[u8]) -> (r: Option<Vec<u8>>)
    ensures
        match row_opened(key@, row@) {
            Some(plaintext) => r matches Some(opened) && opened@ == plaintext,
            None => r is None,
        },
        r is Some ==> key@.len() == KEY_LEN,
{
    match StoredValue::from_bytes(row) {
        None => None,
        Some(sealed) => {
            let nonce: [u8; 12] = sealed.nonce();
            match aead_open(key, &nonce, sealed.ciphertext().as_slice()) {
                Ok(plaintext) => Some(plaintext),
                Err(_) => None,
            }
        },
    }
}

/// How an attempt to unlock with the candidate `key` ends when the sentinel
/// row is `row`.
pub fn check_candidate(key: &[u8], row: &Option<Vec<u8>>) -> (status: UnlockStatus)
    ensures
        status == candidate_status(key@, row_view(*row)),
        status == UnlockStatus::Unlocked ==> key@.len() == KEY_LEN,
{
    match row {
        None => UnlockStatus::NoCheckKey,
        Some(bytes) => match open_row(key, bytes.as_slice()) {
            None => UnlockStatus::Rejected,
            Some(plaintext) => if is_check_plaintext(plaintext.as_slice()) {
                UnlockStatus::Unlocked
            } else {
                UnlockStatus::Rejected
            },
        },
    }
}

/// What reading gives when the master key is `master` and the row under the
/// key asked for is `row`.
pub fn read_row(master: &[u8], row: &Option<Vec<u8>>) -> (r: Result<Response, StoreError>)
    ensures
        outcome_of(r) == row_result(master@, row_view(*row)),
{
    match row {
        None => Ok(Response::KeyNotFound),
        Some(bytes) => match open_row(master, bytes.as_slice()) {
            None => Err(StoreError::Crypto),
            Some(plaintext) => match text_from_utf8(plaintext) {
                Some(text) => Ok(Response::Value(Some(text))),
                None => Err(StoreError::Corrupt),
            },
        },
    }
}

/// The error that stands for a failure `error` of the database.
pub(crate) fn storage_error(error: &redb::Error) -> (e: StoreError)
    ensures
        e@ is Storage,
{
    StoreError::Storage(storage_message(error))
}

/// `String::into_bytes`: the buffer of `text` as bytes, without a copy.
#[verifier::external_body]
pub(crate) fn text_into_bytes(text: String) -> (bytes: Vec<u8>)
    ensures
        bytes@ == vstd::utf8::encode_utf8(text@),
{
    text.into_bytes()
}

/// The bytes of the key in `key`, if there is one.
pub open spec fn key_view(key: Option<MasterKey>) -> Option<Seq<u8>> {
    match key {
        Some(master) => Some(master@),
        None => None,
    }
}

/// The share store.
pub struct ShareStore {
    shares: Vec<String>,
    key: Option<MasterKey>,
    db: Database,
    epoch: u64,
}

impl View for ShareStore {
    type V = StoreState;

    closed spec fn view(&self) -> StoreState {
        StoreState {
            shares: self.shares.deep_view(),
            key: key_view(self.key),
            config: config_rows(self.db),
            values: value_rows(self.db),
            epoch: self.epoch,
        }
    }
}

impl ShareStore {
    /// A locked store on `db`, with no share handed in.
    pub fn new(db: Database) -> (store: Self)
        ensures
            store@.shares == Seq::<Seq<char>>::empty(),
            store@.key is None,
            store@.config == config_rows(db),
            store@.values == value_rows(db),
            store@.epoch == 0,
    {
        let shares: Vec<String> = Vec::new();
        ShareStore { shares, key: None, db, epoch: 0 }
    }

    /// The number of the lease that the master key is held under: how
    /// often the store was unlocked so far.
    pub fn epoch(&self) -> (epoch: u64)
        ensures
            epoch == self@.epoch,
    {
        self.epoch
    }

    /// Ends the lease `epoch`: drops the master key if it is held under
    /// that lease. Where the store was unlocked again since the lease was
    /// given, the key stays.
    pub fn expire(&mut self, epoch: u64) -> (dropped: bool)
        ensures
            final(self)@ == old(self)@.expired(epoch),
            dropped == (epoch == old(self)@.epoch),
    {
        if epoch == self.epoch {
            self.clear_key();
            true
        } else {
            false
        }
    }

    /// Gives up the store: the shares handed in and the master key are
    /// overwritten, and the database comes back.
    pub fn into_database(self) -> (db: Database)
        ensures
            config_rows(db) == self@.config,
            value_rows(db) == self@.values,
    {
        let mut store = self;
        store.clear_shares();
        store.clear_key();
        store.db
    }

    /// Whether the store holds the master key, which is 32 bytes long.
    pub fn is_unlocked(&self) -> (b: bool)
        ensures
            b == self@.is_unlocked(),
            self@.key matches Some(key) ==> key.len() == KEY_LEN,
    {
        match &self.key {
            Some(master) => {
                let _ = master.as_slice();
                true
            },
            None => false,
        }
    }

    /// Overwrites the shares handed in and forgets them.
    pub fn clear_shares(&mut self)
        ensures
            final(self)@ == (StoreState { shares: Seq::empty(), ..old(self)@ }),
    {
        while self.shares.len() > 0
            invariant
                self.key == old(self).key,
                self.db == old(self).db,
                self.epoch == old(self).epoch,
            decreases self.shares.len(),
        {
            match self.shares.pop() {
                Some(share) => {
                    let mut bytes = text_into_bytes(share);
                    zeroize(&mut bytes);
                },
                None => {},
            }
        }
        assert(self.shares.deep_view() =~= Seq::<Seq<char>>::empty());
    }

    /// Overwrites the master key and forgets it: the store is locked.
    pub fn clear_key(&mut self)
        ensures
            final(self)@ == old(self)@.locked(),
    {
        match self.key.take() {
            Some(master) => {
                master.wipe();
            },
            None => {},
        }
    }

    /// Puts `share` behind the shares handed in. The share is not looked at.
    pub fn add_share(&mut self, share: &str)
        ensures
            final(self)@ == old(self)@.with_share(share@),
    {
        let ghost before = self.shares.deep_view();
        self.shares.push(share.to_owned());
        assert(self.shares.deep_view() =~= before.push(share@));
    }

    /// Writes the number of shares and the threshold of `init` to the
    /// configuration, one after the other. No key is made.
    pub fn initialize(&mut self, init: Init) -> (r: Result<Response, StoreError>)
        ensures
            old(self)@.initialize_step(
                init.num_shares(),
                init.threshold(),
                final(self)@,
                outcome_of(r),
            ),
            old(self)@.consistent() ==> final(self)@.consistent(),
    {
        proof {
            lemma_config_keys_differ();
        }
        let num_shares = ConfigVal::from_u8(init.num_shares()).as_bytes();
        let threshold = ConfigVal::from_u8(init.threshold()).as_bytes();
        if let Err(e) = write_config(&mut self.db, "NUM_SHARES", num_shares.as_slice()) {
            return Err(storage_error(&e));
        }
        if let Err(e) = write_config(&mut self.db, "THRESHOLD", threshold.as_slice()) {
            return Err(storage_error(&e));
        }
        Ok(Response::Success)
    }

    /// Splits `key` into shares by `init`, seals the sentinel under it, and
    /// in one transaction writes the sentinel and marks the store as
    /// initialised. The key is not kept.
    pub fn install_key(&mut self, init: &Init, key: &[u8]) -> (r: Result<Response, StoreError>)
        ensures
            match r {
                Ok(response) => response@ matches ResponseView::Shares(shares) && can_split(
                    init.num_shares(),
                    init.threshold(),
                    key@.len(),
                ) && shares.len() == init.num_shares() && shares_of(
                    shares,
                    init.threshold(),
                    key@,
                ) && old(self)@.installed(key@, final(self)@),
                Err(e) => match e@ {
                    StoreErrorView::ShareGeneration => !can_split(
                        init.num_shares(),
                        init.threshold(),
                        key@.len(),
                    ) && final(self)@ == old(self)@,
                    StoreErrorView::Crypto => final(self)@ == old(self)@,
                    StoreErrorView::Storage(_) => final(self)@ == old(self)@ || old(
                        self
                    )@.installed(key@, final(self)@),
                    _ => false,
                },
            },
            old(self)@.consistent() ==> final(self)@.consistent(),
    {
        let shares = match split_secret(init, key) {
            Ok(shares) => shares,
            Err(e) => {
                return Err(e);
            },
        };
        let plaintext = check_plaintext_bytes();
        let (nonce, sealed): ([u8; 12], Vec<u8>) = match aead_seal(key, plaintext.as_slice()) {
            Ok(pair) => pair,
            Err(_) => {
                return Err(StoreError::Crypto);
            },
        };
        let row = StoredValue::new(nonce, sealed).as_bytes();
        let flag = ConfigVal::from_bool(true).as_bytes();
        proof {
            crate::values::lemma_sealed_row_roundtrip(nonce@, sealed@);
        }
        let written = write_value_and_config(
            &mut self.db,
            "CHECK_KEY",
            row.as_slice(),
            "INITIALIZED",
            flag.as_slice(),
        );
        match written {
            Ok(()) => Ok(Response::Shares(Shares::new(shares))),
            Err(e) => Err(storage_error(&e)),
        }
    }

    /// The number of shares and the threshold that the configuration asks
    /// for: 5 and 3 where it has none.
    pub fn share_counts(&self) -> (r: Result<Init, StoreError>)
        ensures
            match r {
                Ok(init) => count_of(
                    lookup(self@.config, num_shares_key()),
                    Init::DEFAULT_NUM_SHARES,
                ) == Ok::<u8, StoreErrorView>(init.num_shares()) && count_of(
                    lookup(self@.config, threshold_key()),
                    Init::DEFAULT_THRESHOLD,
                ) == Ok::<u8, StoreErrorView>(init.threshold()),
                Err(e) => e@ is Storage || (e@ == StoreErrorView::Corrupt && (count_of(
                    lookup(self@.config, num_shares_key()),
                    Init::DEFAULT_NUM_SHARES,
                ) is Err || count_of(
                    lookup(self@.config, threshold_key()),
                    Init::DEFAULT_THRESHOLD,
                ) is Err)),
            },
    {
        let num_shares_row = match read_config(&self.db, "NUM_SHARES") {
            Ok(row) => row,
            Err(e) => {
                return Err(storage_error(&e));
            },
        };
        let num_shares = match count_of_row(&num_shares_row, Init::DEFAULT_NUM_SHARES) {
            Ok(count) => count,
            Err(e) => {
                return Err(e);
            },
        };
        let threshold_row = match read_config(&self.db, "THRESHOLD") {
            Ok(row) => row,
            Err(e) => {
                return Err(storage_error(&e));
            },
        };
        let threshold = match count_of_row(&threshold_row, Init::DEFAULT_THRESHOLD) {
            Ok(count) => count,
            Err(e) => {
                return Err(e);
            },
        };
        Ok(Init::new(num_shares, threshold))
    }

    /// Initialises the store: draws a master key, hands it out as shares
    /// and keeps only the sentinel sealed under it. The numbers of shares
    /// and the threshold are those of the configuration, 5 and 3 where it
    /// has none. A store that is initialised already is left as it is.
    pub fn gen_shares(&mut self) -> (r: Result<Response, StoreError>)
        ensures
            old(self)@.gen_shares_step(final(self)@, outcome_of(r)),
            old(self)@.consistent() ==> final(self)@.consistent(),
    {
        let flag_row = match read_config(&self.db, "INITIALIZED") {
            Ok(row) => row,
            Err(e) => {
                return Err(storage_error(&e));
            },
        };
        let initialized = match flag_of_row(&flag_row) {
            Ok(flag) => flag,
            Err(e) => {
                return Err(e);
            },
        };
        if initialized {
            return Ok(Response::AlreadyInitialized);
        }
        let mut key = match random_bytes(KEY_LEN) {
            Ok(key) => key,
            Err(_) => {
                return Err(StoreError::Crypto);
            },
        };
        let init = match self.share_counts() {
            Ok(init) => init,
            Err(e) => {
                zeroize(&mut key);
                return Err(e);
            },
        };
        let outcome = self.install_key(&init, key.as_slice());
        proof {
            if outcome is Ok {
                let shares = outcome->Ok_0@->Shares_0;
                let after = self@;
                assert forall|quorum: Seq<Seq<char>>| #[trigger]
                    is_quorum(quorum, shares, old(self)@.threshold()) implies shares_status(
                    quorum,
                    after.values,
                ) == UnlockStatus::Unlocked by {
                    assert(shamir_combined(quorum) == Some(key@));
                }
            }
        }
        zeroize(&mut key);
        outcome
    }

    /// The number of shares that open the store: the threshold of the
    /// configuration, 3 where it has none or one that cannot be read.
    pub fn get_threshold(&self) -> (r: Result<u8, StoreError>)
        ensures
            self@.threshold_step(threshold_outcome(r)),
    {
        let row = match read_config(&self.db, "THRESHOLD") {
            Ok(row) => row,
            Err(e) => {
                return Err(storage_error(&e));
            },
        };
        match count_of_row(&row, Init::DEFAULT_THRESHOLD) {
            Ok(threshold) => Ok(threshold),
            Err(_) => Ok(Init::DEFAULT_THRESHOLD),
        }
    }

    /// Tries to unlock the store with the shares handed in, and forgets
    /// them whatever comes of it. The shares are combined to a candidate
    /// key; the candidate becomes the master key exactly if it opens the
    /// sentinel to its plaintext. Otherwise the store keeps the key it had,
    /// or none.
    pub fn unlock(&mut self) -> (r: Result<UnlockStatus, StoreError>)
        ensures
            old(self)@.unlock_step(final(self)@, unlock_outcome(r)),
            old(self)@.consistent() ==> final(self)@.consistent(),
    {
        let combined = shamir_combine(self.shares.as_slice());
        self.clear_shares();
        let mut candidate = match combined {
            Some(candidate) => candidate,
            None => {
                return Ok(UnlockStatus::NoCandidate);
            },
        };
        let row = match read_value(&self.db, "CHECK_KEY") {
            Ok(row) => row,
            Err(e) => {
                zeroize(&mut candidate);
                return Err(storage_error(&e));
            },
        };
        let status = check_candidate(candidate.as_slice(), &row);
        match status {
            UnlockStatus::Unlocked => {
                self.clear_key();
                self.key = MasterKey::new(candidate);
                self.epoch = if self.epoch == u64::MAX {
                    0
                } else {
                    self.epoch + 1
                };
            },
            _ => {
                zeroize(&mut candidate);
            },
        }
        Ok(status)
    }

    /// Writes the row `row` under `key` in the value table.
    pub fn store_row(&mut self, key: &str, row: &[u8]) -> (r: Result<(), StoreError>)
        ensures
            final(self)@.shares == old(self)@.shares,
            final(self)@.key == old(self)@.key,
            final(self)@.config == old(self)@.config,
            final(self)@.epoch == old(self)@.epoch,
            match r {
                Ok(()) => final(self)@.values == old(self)@.values.insert(key@, row@),
                Err(e) => e@ is Storage && (final(self)@.values == old(self)@.values
                    || final(self)@.values == old(self)@.values.insert(key@, row@)),
            },
    {
        match write_value(&mut self.db, key, row) {
            Ok(()) => Ok(()),
            Err(e) => Err(storage_error(&e)),
        }
    }

    /// Seals `value` under the master key and writes it under `key`, in
    /// place of what was there. A locked store refuses and stays as it is.
    pub fn store(&mut self, key: &str, value: Vec<u8>) -> (r: Result<Response, StoreError>)
        ensures
            old(self)@.store_step(key@, value@, final(self)@, outcome_of(r)),
            old(self)@.consistent() ==> final(self)@.consistent(),
    {
        let sealed = match &self.key {
            None => {
                return Err(StoreError::StoreNotUnlocked);
            },
            Some(master) => aead_seal(master.as_slice(), value.as_slice()),
        };
        let (nonce, ciphertext): ([u8; 12], Vec<u8>) = match sealed {
            Ok(pair) => pair,
            Err(_) => {
                return Err(StoreError::Crypto);
            },
        };
        let row = StoredValue::new(nonce, ciphertext).as_bytes();
        proof {
            crate::values::lemma_sealed_row_roundtrip(nonce@, ciphertext@);
        }
        let written = self.store_row(key, row.as_slice());
        match written {
            Ok(()) => Ok(Response::Success),
            Err(e) => Err(e),
        }
    }

    /// Reads the value kept under `key`: opens its row with the master key
    /// and gives the plaintext as text. A locked store refuses without
    /// looking.
    pub fn read(&self, key: &str) -> (r: Result<Response, StoreError>)
        ensures
            self@.read_step(key@, outcome_of(r)),
    {
        let master = match &self.key {
            None => {
                return Err(StoreError::StoreNotUnlocked);
            },
            Some(master) => master,
        };
        let row = match read_value(&self.db, key) {
            Ok(row) => row,
            Err(e) => {
                return Err(storage_error(&e));
            },
        };
        read_row(master.as_slice(), &row)
    }
}

} // verus!
