//! Demo data seeding, which the read-only daemon refuses.

use vstd::prelude::*;

verus! {

/// Seeding demo incidents is refused: the daemon never writes to the replica.
#[derive(Clone, Copy, Debug, PartialEq, Eq, Structural)]
pub struct DemoDisabled;

impl DemoDisabled {
    /// The text shown to the user.
    pub fn message(&self) -> (res: &'static str)
        ensures
            res@ == "insert-demo-critical is disabled; rust-edge is strict read-only for the deadline build"@,
    {
        "insert-demo-critical is disabled; rust-edge is strict read-only for the deadline build"
    }
}

/// Would insert a demo critical incident; always refused.
pub fn insert_demo_critical() -> (res: Result<(), DemoDisabled>)
    ensures
        res == Err::<(), DemoDisabled>(DemoDisabled),
{
    Err(DemoDisabled)
}

} // verus!
