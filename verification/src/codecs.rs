//! Boundary types of the codec collaborators.
//!
//! The image decode/encode pipeline itself is an external collaborator of
//! this crate: it is driven by the command-line front end and never takes
//! part in the supervision protocol. These are the types it shares with the
//! front end.

use vstd::prelude::*;

verus! {

/// Implemented by the command-line front end's command builder to register
/// the per-codec subcommands.
pub trait Codecs {
    fn codecs(self) -> Self;
}

/// Failure surfaced by the JPEG XL encoder collaborator. The payload names
/// the encoder call that failed.
#[derive(Debug)]
pub enum Error {
    JxlEncoder(String),
}

} // verus!
