//! Decision core for two window-decoration operations of a desktop shell:
//! setting a window's opacity and rounding its corners.
//!
//! The platform calls themselves (resolving a native window handle, writing
//! extended style bits, asking the compositor to blend or to round) are made
//! by an unverified driver outside this crate. This crate decides, step by
//! step, which call comes next and with which values: the alpha byte a
//! requested opacity quantises to, the extended style word with the layered
//! bit set, the corner preference to request, and the outcome reported to
//! the caller when a call fails or the platform does not support the
//! operation at all.

pub mod corner;
pub mod flow;
pub mod opacity;
pub mod outcome;
