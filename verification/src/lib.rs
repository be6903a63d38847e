//! Core of a local secret store: an encrypted key-value database that is
//! unlocked by a quorum of Shamir shares.
//!
//! An operator initialises the store once and is handed `N` shares of a
//! fresh master key. The key itself is kept nowhere: the database holds a
//! sentinel sealed under it, and any `T` of the shares reconstruct it. While
//! the store holds the key it seals the values that clients store and opens
//! them again; when the key's lease runs out the key is overwritten and the
//! store is locked.
//!
//! The modules, leaves first:
//!
//! - [`codec`] and [`wire`]: the binary encoding of requests and responses,
//!   with the proof that decoding undoes encoding.
//! - [`message`]: the requests and responses themselves.
//! - [`values`]: the rows of the two tables of the database.
//! - [`key`] and [`genkey`]: splitting a secret into shares and combining
//!   shares to a secret.
//! - [`seal`]: authenticated encryption, the random source and the master
//!   key.
//! - [`db`]: the embedded database.
//! - [`store`]: the share store, the state machine behind every request.
//! - [`handler`]: the dispatcher, from the bytes of a request to the bytes
//!   of its response.
//! - [`laws`]: what holds of the store whatever requests arrive.
//! - [`error`], [`logging`], [`socket`] and [`client`]: exit codes, filter
//!   directives, the name of the socket, and what a client makes of a
//!   response.
//!
//! Shamir's scheme, the cipher and the database are used as they are and
//! are not verified. Each function that calls one of them states what it
//! takes for granted; everything else is proved from those statements.

pub mod client;
pub mod codec;
pub mod db;
pub mod error;
pub mod genkey;
pub mod handler;
pub mod key;
pub mod laws;
pub mod logging;
pub mod message;
pub mod seal;
pub mod socket;
pub mod store;
pub mod values;
pub mod wire;

pub use genkey::genkey;
pub use key::gen_shares;
pub use key::unlock_key;
pub use message::Action;
pub use message::Init;
pub use message::Response;
pub use message::Share;
pub use message::Shares;
pub use message::Store;
