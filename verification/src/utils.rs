//! What the anti-link-mask feature does to a user who reaches the offense limit.
use vstd::prelude::*;

verus! {

/// The action taken against a user once their offense count passes the limit.
#[derive(Clone, Copy, PartialEq, Eq, Structural, Debug)]
pub enum ActionKind {
    Nothing,
    Silence,
    Kick,
    Ban,
    HardBan,
}

} // verus!
