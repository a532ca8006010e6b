//! Verified ledger-style record stores.
//!
//! Three stores keep small records about toys: `andys_room` keeps named play
//! scenarios and the toys that take part in them, `roundup` registers toys
//! under consecutive numbers and lets their owners hand them on, and
//! `sids_factory` keeps what was done to each toy and a log of its repairs.
//! All three are built on one keyed `table`, and each operation is an atomic
//! update of one record: it either takes effect as a whole or fails and
//! changes nothing.
//!
//! The stores hold their records in memory. Whatever surrounds them loads
//! the records that an operation touches, asks the host's validator about
//! the addresses in a message, and writes back what has changed.

pub mod error;
pub mod keys;
pub mod principal;
pub mod response;
pub mod table;
pub mod andys_room;
pub mod roundup;
pub mod sids_factory;
