//! Driver logic for a 16-channel PWM generator chip driven over a
//! byte-oriented two-wire register bus.
//!
//! The library holds everything that can be stated and proved: the chip's
//! register map ([`registers`]), the arithmetic that turns frequencies,
//! pulse widths and servo angles into register values ([`timing`]), the
//! exact sequence of bus operations each driver command performs
//! ([`session`]), and a model of what those operations do to the chip's
//! register file ([`chip`]).  The bus transport itself — opening the
//! device, moving single bytes, sleeping through settling delays — is
//! left to the embedding program, which executes the action sequences a
//! [`session::Session`] hands out, one at a time, and reports each
//! outcome back.

pub mod chip;
pub mod registers;
pub mod session;
pub mod timing;
