use vstd::prelude::*;

verus! {

/// The condition under which a `SKIP` instruction skips the next one.
#[derive(Clone, Copy, Debug, PartialEq, Eq, Structural)]
pub enum SKIPType {
    /// The register equals another register or a constant
    Equals,
    /// The register differs from another register or a constant
    NotEquals,
    /// The key named by the register is pressed
    KeyDown,
    /// The key named by the register is released
    KeyUp,
}

/// The name that the operand containers use for [`SKIPType`].
pub type SkipType = SKIPType;

impl SKIPType {
    /// Whether the condition tests a key, rather than comparing values.
    pub open spec fn is_key(self) -> bool {
        self is KeyDown || self is KeyUp
    }
}

} // verus!
