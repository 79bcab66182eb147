use vstd::prelude::*;

verus! {

/// Per-motor control state: the commanded input level and the level the
/// motor currently delivers, in whole engine units. Any value is valid;
/// no invariant relates the two fields.
#[derive(Clone, Copy, Debug, PartialEq, Eq, Structural)]
pub struct MotorState {
    pub input: i64,
    pub current: i64,
}

impl Default for MotorState {
    /// A motor at rest: no commanded input and no delivered output.
    fn default() -> (r: Self)
        ensures
            r.input == 0,
            r.current == 0,
    {
        MotorState { input: 0, current: 0 }
    }
}

} // verus!
