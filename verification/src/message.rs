//! The requests that a client sends and the responses that the store gives.

use vstd::prelude::*;

verus! {

/// How many shares to create, and how many of them open the store.
#[derive(Clone, Copy, Debug, PartialEq, Eq, Structural)]
pub struct Init {
    num_shares: u8,
    threshold: u8,
}

impl Init {
    /// The number of shares that is created when none is given.
    pub const DEFAULT_NUM_SHARES: u8 = 5;

    /// The threshold that holds when none is given.
    pub const DEFAULT_THRESHOLD: u8 = 3;

    /// The number of shares as a specification value.
    pub closed spec fn spec_num_shares(self) -> u8 {
        self.num_shares
    }

    /// The threshold as a specification value.
    pub closed spec fn spec_threshold(self) -> u8 {
        self.threshold
    }

    /// An `Init` of `num_shares` shares, `threshold` of which open the store.
    pub fn new(num_shares: u8, threshold: u8) -> (init: Self)
        ensures
            init.spec_num_shares() == num_shares,
            init.spec_threshold() == threshold,
    {
        Init { num_shares, threshold }
    }

    /// The number of shares to create.
    #[verifier::when_used_as_spec(spec_num_shares)]
    pub fn num_shares(self) -> (n: u8)
        ensures
            n == self.spec_num_shares(),
    {
        self.num_shares
    }

    /// The least number of shares that reconstruct the key.
    #[verifier::when_used_as_spec(spec_threshold)]
    pub fn threshold(self) -> (t: u8)
        ensures
            t == self.spec_threshold(),
    {
        self.threshold
    }
}

impl Default for Init {
    /// Five shares, three of which open the store.
    fn default() -> (init: Self)
        ensures
            init.spec_num_shares() == Init::DEFAULT_NUM_SHARES,
            init.spec_threshold() == Init::DEFAULT_THRESHOLD,
    {
        Init { num_shares: Init::DEFAULT_NUM_SHARES, threshold: Init::DEFAULT_THRESHOLD }
    }
}

/// One share, as a client hands it in.
#[derive(Clone, Debug, PartialEq, Eq)]
pub struct Share {
    share: String,
}

impl View for Share {
    type V = Seq<char>;

    closed spec fn view(&self) -> Seq<char> {
        self.share@
    }
}

impl Share {
    /// A message that carries `share`.
    pub fn new(share: String) -> (msg: Self)
        ensures
            msg@ == share@,
    {
        Share { share }
    }

    /// The share.
    #[must_use]
    pub fn share(&self) -> (s: &str)
        ensures
            s@ == self@,
    {
        self.share.as_str()
    }
}

/// The shares that the store hands out when it is initialised.
#[derive(Clone, Debug, PartialEq, Eq)]
pub struct Shares {
    shares: Vec<String>,
}

impl View for Shares {
    type V = Seq<Seq<char>>;

    closed spec fn view(&self) -> Seq<Seq<char>> {
        self.shares.deep_view()
    }
}

impl Shares {
    /// A message that carries `shares`, in their order.
    pub fn new(shares: Vec<String>) -> (msg: Self)
        ensures
            msg@ == shares.deep_view(),
    {
        Shares { shares }
    }

    /// The shares.
    #[must_use]
    pub fn shares(&self) -> (s: &[String])
        ensures
            s.deep_view() == self@,
    {
        self.shares.as_slice()
    }
}

/// A value to keep under a key.
#[derive(Clone, Debug, PartialEq, Eq)]
pub struct Store {
    key: String,
    value: String,
}

impl View for Store {
    type V = (Seq<char>, Seq<char>);

    closed spec fn view(&self) -> (Seq<char>, Seq<char>) {
        (self.key@, self.value@)
    }
}

impl Store {
    /// A message that asks to keep `value` under `key`.
    pub fn new(key: String, value: String) -> (msg: Self)
        ensures
            msg@ == (key@, value@),
    {
        Store { key, value }
    }

    /// The key.
    #[must_use]
    pub fn key(&self) -> (k: &str)
        ensures
            k@ == self@.0,
    {
        self.key.as_str()
    }

    /// The value.
    #[must_use]
    pub fn value(&self) -> (v: &str)
        ensures
            v@ == self@.1,
    {
        self.value.as_str()
    }

    /// The key and the value.
    #[must_use]
    pub fn into_parts(self) -> (parts: (String, String))
        ensures
            parts.0@ == self@.0,
            parts.1@ == self@.1,
    {
        (self.key, self.value)
    }
}

/// A request to the store.
#[derive(Clone, Debug, PartialEq, Eq)]
pub enum Action {
    /// Try to unlock the store with the shares handed in so far.
    Unlock,
    /// Hand in one share.
    Share(Share),
    /// Initialise the store: the number of shares, then the threshold.
    GenShares(u8, u8),
    /// Keep a value under a key.
    Store(Store),
    /// Read the value kept under a key.
    Read(String),
    /// Ask how many shares open the store.
    GetThreshold,
}

/// What an [`Action`] says, with each text as a sequence of characters.
pub enum ActionView {
    Unlock,
    Share(Seq<char>),
    GenShares(u8, u8),
    Store(Seq<char>, Seq<char>),
    Read(Seq<char>),
    GetThreshold,
}

impl View for Action {
    type V = ActionView;

    open spec fn view(&self) -> ActionView {
        match self {
            Action::Unlock => ActionView::Unlock,
            Action::Share(share) => ActionView::Share(share@),
            Action::GenShares(num_shares, threshold) => ActionView::GenShares(
                *num_shares,
                *threshold,
            ),
            Action::Store(store) => ActionView::Store(store@.0, store@.1),
            Action::Read(key) => ActionView::Read(key@),
            Action::GetThreshold => ActionView::GetThreshold,
        }
    }
}

/// An answer of the store.
#[derive(Clone, Debug, PartialEq, Eq)]
pub enum Response {
    /// The request failed, and why.
    Error(String),
    /// The request was carried out.
    Success,
    /// The shares of a store that has just been initialised.
    Shares(Shares),
    /// The store was initialised before.
    AlreadyInitialized,
    /// The number of shares that open the store.
    Threshold(u8),
    /// The value read.
    Value(Option<String>),
    /// Nothing is kept under the key.
    KeyNotFound,
}

/// What a [`Response`] says, with each text as a sequence of characters.
pub enum ResponseView {
    Error(Seq<char>),
    Success,
    Shares(Seq<Seq<char>>),
    AlreadyInitialized,
    Threshold(u8),
    Value(Option<Seq<char>>),
    KeyNotFound,
}

/// The characters of the text in `value`, if there is one.
pub open spec fn option_text_view(value: Option<String>) -> Option<Seq<char>> {
    match value {
        Some(text) => Some(text@),
        None => None,
    }
}

impl View for Response {
    type V = ResponseView;

    open spec fn view(&self) -> ResponseView {
        match self {
            Response::Error(message) => ResponseView::Error(message@),
            Response::Success => ResponseView::Success,
            Response::Shares(shares) => ResponseView::Shares(shares@),
            Response::AlreadyInitialized => ResponseView::AlreadyInitialized,
            Response::Threshold(threshold) => ResponseView::Threshold(*threshold),
            Response::Value(value) => ResponseView::Value(option_text_view(*value)),
            Response::KeyNotFound => ResponseView::KeyNotFound,
        }
    }
}

} // verus!
