//! What the user wants the link to be: a client session to a named
//! server, or a pairing handshake with one.

use vstd::prelude::*;

verus! {

/// The intent source.
pub struct Intent {
    /// Server name to hold an authenticated session with.
    pub target: Option<String>,
    /// Server name to pair with.
    pub pair_target: Option<String>,
}

impl Intent {
    pub fn new() -> (i: Self)
        ensures
            i.target is None,
            i.pair_target is None,
    {
        Intent { target: None, pair_target: None }
    }
}

} // verus!
