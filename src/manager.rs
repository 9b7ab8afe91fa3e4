use vstd::prelude::*;

verus! {

/// A small holder of a wrapping counter and an exit flag, passed by handle
/// to whoever needs it rather than kept in a global.
pub struct StateManager {
    counter: u8,
    exit: bool,
}

impl View for StateManager {
    type V = (u8, bool);

    closed spec fn view(&self) -> (u8, bool) {
        (self.counter, self.exit)
    }
}

/// `c + 1`, wrapping from 255 to 0.
pub open spec fn wrapped_up(c: u8) -> u8 {
    ((c as int + 1) % 256) as u8
}

/// `c - 1`, wrapping from 0 to 255.
pub open spec fn wrapped_down(c: u8) -> u8 {
    ((c as int + 255) % 256) as u8
}

impl StateManager {
    /// Counter at 0, exit flag clear.
    pub fn new() -> (r: Self)
        ensures
            r@ == (0u8, false),
    {
        StateManager { counter: 0, exit: false }
    }

    pub fn get_counter(&self) -> (r: u8)
        ensures
            r == self@.0,
    {
        self.counter
    }

    /// Adds one to the counter, wrapping from 255 to 0.
    pub fn increment(&mut self)
        ensures
            final(self)@ == (wrapped_up(old(self)@.0), old(self)@.1),
    {
        self.counter = if self.counter == 255 { 0 } else { self.counter + 1 };
    }

    /// Takes one from the counter, wrapping from 0 to 255.
    pub fn decrement(&mut self)
        ensures
            final(self)@ == (wrapped_down(old(self)@.0), old(self)@.1),
    {
        self.counter = if self.counter == 0 { 255 } else { self.counter - 1 };
    }

    pub fn set_exit(&mut self, exit: bool)
        ensures
            final(self)@ == (old(self)@.0, exit),
    {
        self.exit = exit;
    }

    pub fn should_exit(&self) -> (r: bool)
        ensures
            r == self@.1,
    {
        self.exit
    }
}

} // verus!
