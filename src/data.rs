use vstd::prelude::*;

verus! {

/// The channels on which the shared application state announces changes.
#[derive(Default, PartialEq, Eq, Structural, Clone, Debug, Copy, Hash, PartialOrd, Ord)]
pub enum DataChannel {
    /// The catalog session was established or replaced.
    #[default]
    YtApi,
    /// The home feed was loaded.
    Feed,
}

} // verus!
