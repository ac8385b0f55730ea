//! How a decode can fail.

use vstd::prelude::*;

verus! {

/// The step of a decode at which the input proved unusable.
#[derive(Debug, Clone, Copy, PartialEq, Eq, Structural)]
pub enum DecodeStage {
    /// Making a mesh handle from the encoded bytes.
    HandleCreation,
    /// Decoding the mesh into the output buffer.
    BufferDecode,
}

/// Why a decode produced no mesh. Every failure is a value: none aborts.
#[derive(Debug, Clone, Copy, PartialEq, Eq, Structural)]
pub enum DecodeError {
    /// The engine could not be had at all.
    EngineUnavailable,
    /// The engine made nothing of the input: it gave no handle, or no bytes,
    /// or bytes that do not fill the layout it described.
    DecodeInputInvalid { stage: DecodeStage },
    /// The engine could not describe the mesh, or described one that no
    /// config can hold: with an element type code that names no type, with
    /// more indices than fit, or with a layout that cannot be written down.
    ConfigComputationFailed,
    /// The exchange with the worker was rejected or broke off.
    TransportFailure,
}

} // verus!
