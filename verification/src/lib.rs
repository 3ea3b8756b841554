//! An emulated NOR-flash device over a plain byte store.
//!
//! NOR flash differs from ordinary storage in three ways: reads, writes and
//! erases must be aligned to fixed power-of-two unit sizes; a region can only
//! be written after it has been erased to the all-ones value; and writing
//! never brings a byte back to the erased state. The [`flash::FlashMock`]
//! device enforces these rules over an in-memory byte store, and the
//! [`rmw`] module layers ordinary overwrite semantics on top of it by a
//! read-modify-write merge over whole erase units.
//!
//! Persistence is the surrounding storage layer's concern: it hands
//! previously saved contents to [`flash::FlashMock::from_contents`] and
//! saves [`flash::FlashMock::as_bytes`] after each mutation.

pub mod flash;
pub mod laws;
pub mod model;
pub mod rmw;

pub use flash::FlashMock;
pub use flash::FlashMockError;
