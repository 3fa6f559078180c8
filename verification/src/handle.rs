//! Classification of the raw window and display handles a backend is
//! constructed from.  The unverified shell inspects the platform handle it
//! was given and reports its shape here; the verified constructors decide
//! whether that shape is supported.

use vstd::prelude::*;

verus! {

/// The shape of a raw platform handle.
#[derive(Clone, Copy, Debug, PartialEq, Eq, Structural)]
pub enum HandleKind {
    /// A compositor-protocol surface or display.
    Wayland,
    /// A display-server protocol handle in its native shape.
    Xcb,
    /// A display-server protocol handle in its historical shape, which is
    /// normalized to the native one.
    Xlib,
    /// Anything else; unsupported.
    Other,
}

} // verus!
