//! A shareable resource cell with an explicit borrow discipline.
//!
//! A [`Res`] holds one value together with the bookkeeping that decides who
//! may reach it: how many handles keep it alive, how many read guards are
//! out, whether the write guard is out, and whether the cell was poisoned.
//!
//! The cell is plain data. Every operation takes the cell and says in its
//! contract what the cell is afterwards, over the model in [`model`];
//! nothing waits inside the cell and nothing in it is hidden from the
//! contracts. Whoever shares one cell between several owners keeps it where
//! all of them reach it, asks it on each request and acts on the answer:
//! waits where the answer is [`Outcome::Suspended`], and gives each guard
//! back when the scope that holds it ends.
//!
//! The laws that the discipline obeys are proved in [`laws`].
pub mod cell;
pub mod laws;
pub mod model;
pub mod outcome;
pub mod strategy;

pub use cell::{LocalRes, ReadGuard, Res, SyncRes, WriteGuard};
pub use model::CellModel;
pub use outcome::{BorrowError, Exit, Outcome, Verdict};
pub use strategy::{CrossThread, SingleOwner, Strategy};
