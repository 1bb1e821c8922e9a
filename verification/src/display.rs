use vstd::prelude::*;

verus! {

/// An opaque identifier for a capturable display or window.
///
/// Targets are produced by a display-enumeration collaborator; the capture
/// core treats them as keys and passes them through to the backend unread.
#[derive(Clone, Copy, Debug, PartialEq, Eq, Structural)]
pub enum Target {
    /// A whole display, by its platform identifier.
    Display(u32),
    /// A single window, by its platform identifier.
    Window(u32),
}

} // verus!
