use vstd::prelude::*;

verus! {

/// A failure reported by the board query API.
///
/// Corruption means that the bit-level invariants of a `Board` — at most one
/// color per square, and exactly one piece kind wherever a color is set — do
/// not hold. It signals a construction bug upstream, never a legal game
/// state, and is reported as a value so that a caller may log and skip the
/// malformed board rather than abort.
#[derive(Debug)]
pub enum BoardError {
    BoardCorruption(String),
}

impl BoardError {
    /// Wraps a message naming the violated invariant in a corruption error.
    pub fn board_corruption(msg: &str) -> (r: Self)
        ensures
            r matches BoardError::BoardCorruption(m) && m@ == msg@,
    {
        BoardError::BoardCorruption(msg.to_owned())
    }
}

} // verus!
