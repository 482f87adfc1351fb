use vstd::prelude::*;

verus! {

/// A u-blox stream handler that accepts every byte; it has a single state.
#[derive(Clone, Copy, Debug, PartialEq, Eq, Structural)]
pub enum UbloxParser {
    Init,
}

impl UbloxParser {
    pub fn new() -> (r: Self)
        ensures
            r == UbloxParser::Init,
    {
        Self::Init
    }

    /// Accepts the byte: it always reports `true` and stays in its single state.
    pub fn on_data_received(&mut self, data: u8) -> (r: bool)
        ensures
            r,
            *final(self) == *old(self),
    {
        true
    }
}

impl Default for UbloxParser {
    fn default() -> (r: Self)
        ensures
            r == UbloxParser::Init,
    {
        Self::Init
    }
}

} // verus!
