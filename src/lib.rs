//! Exactly-once initialization of long-lived values.
//!
//! A [`StaticCell`] is an empty slot that is written once. Writing it through
//! [`StaticInit::init`] mints an [`Inited`] token: a copyable proof that the
//! cell holds its value. Any holder of the token reads the value through
//! [`Inited::get`] with no runtime check, because the verifier has already
//! shown that a token can only exist once its cell was written.
//!
//! Writing a cell a second time is refused statically: the write requires an
//! empty cell, and a written cell never becomes empty again.

mod cell;
mod token;

pub use cell::StaticCell;
pub use token::{
    lemma_initialized_cell_refuses_init, lemma_tokens_read_the_stored_value, Inited, StaticInit,
};
