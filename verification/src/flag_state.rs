//! The boolean that the handles of one flag share, as a plain value.

use vstd::prelude::*;

verus! {

/// The state of a flag. Its view is the boolean that readers get.
pub struct FlagState {
    state: bool,
}

impl View for FlagState {
    type V = bool;

    closed spec fn view(&self) -> bool {
        self.state
    }
}

impl FlagState {
    /// A flag in the given state.
    pub fn new(initial_state: bool) -> (flag: Self)
        ensures
            flag@ == initial_state,
    {
        FlagState { state: initial_state }
    }

    /// Replaces the state.
    pub fn set(&mut self, state: bool)
        ensures
            final(self)@ == state,
    {
        self.state = state;
    }

    /// The state.
    pub fn get(&self) -> (state: bool)
        ensures
            state == self@,
    {
        self.state
    }
}

/// The state of a flag that was made as `initial` and then set to each of
/// `writes`, in that order: the last of them, or `initial` if there was none.
pub open spec fn after_writes(initial: bool, writes: Seq<bool>) -> bool {
    if writes.len() == 0 {
        initial
    } else {
        writes.last()
    }
}

/// A flag keeps the state it was made with for as long as nothing else is
/// written to it: a flag made raised reads as raised until it is set to
/// `false`.
pub proof fn law_flag_holds_until_changed(initial: bool, writes: Seq<bool>)
    requires
        forall|i: int| 0 <= i < writes.len() ==> writes[i] == initial,
    ensures
        after_writes(initial, writes) == initial,
{
}

/// Once a flag is set, it reads as it was set, whatever it was made with and
/// whatever was written before.
pub proof fn law_flag_shows_last_write(initial: bool, earlier: Seq<bool>, state: bool)
    ensures
        after_writes(initial, earlier.push(state)) == state,
{
}

} // verus!
