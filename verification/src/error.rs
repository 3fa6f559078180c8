//! Error taxonomy of the presentation layer.

use vstd::prelude::*;

verus! {

/// Failure to construct a backend: the window or display handle has an
/// unsupported shape, the window's visual does not match the rasterizer's
/// pixel format, or the display connection could not be established.
#[derive(Clone, Copy, Debug, PartialEq, Eq, Structural)]
pub enum InitError {
    UnsupportedHandle,
    UnsupportedVisual,
    ConnectionFailed,
}

/// Failure to negotiate a buffer size: the dimensions do not fit the
/// backend's native coordinate type, or the memory segment could not be
/// allocated.
#[derive(Clone, Copy, Debug, PartialEq, Eq, Structural)]
pub enum ResizeError {
    DimensionsTooLarge,
    AllocationFailed,
}

/// Failure to hand out the pixel buffer: no size has been negotiated yet,
/// or an earlier submission has not been confirmed complete.
#[derive(Clone, Copy, Debug, PartialEq, Eq, Structural)]
pub enum AccessError {
    NotResized,
    AwaitingCompletion,
}

/// Failure to submit a frame: a damage rectangle falls outside the
/// negotiated size or outside the protocol's coordinate range, or the
/// submission itself failed.
#[derive(Clone, Copy, Debug, PartialEq, Eq, Structural)]
pub enum PresentError {
    DamageOutOfRange,
    Protocol,
}

/// Failure to load a notification icon.
#[derive(Clone, Debug, PartialEq, Eq)]
pub enum IconError {
    /// Reading the icon file failed; holds the error's text.
    IoError(String),
    /// Neither a character nor a path was given.
    CharOrFileNotFound,
    /// None of the listed image formats could be loaded.
    CannotLoadFormats(Vec<String>),
    /// The named image format could not be loaded.
    CannotLoadFormat(String),
}

} // verus!
