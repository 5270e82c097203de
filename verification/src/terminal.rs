//! Raw-mode bookkeeping for the surrounding terminal.
//!
//! The device switches themselves are the caller's: this type decides when a
//! switch is due, so that entering and leaving raw mode are idempotent and
//! the terminal is never switched twice in the same direction.

use vstd::prelude::*;

verus! {

/// The terminal surface's raw-mode state, as this process has set it.
#[derive(Debug)]
pub struct Terminal {
    pub raw_mode_enabled: bool,
}

impl Terminal {
    /// A fresh terminal handle; raw mode has not been entered.
    pub fn new() -> (t: Terminal)
        ensures
            !t.raw_mode_enabled,
    {
        Terminal { raw_mode_enabled: false }
    }

    /// Enter raw mode. Returns whether the caller must switch the device
    /// now: false means raw mode was already on, and a second call changes
    /// nothing.
    pub fn enter_raw_mode(&mut self) -> (switch: bool)
        ensures
            final(self).raw_mode_enabled,
            switch == !old(self).raw_mode_enabled,
    {
        let switch = !self.raw_mode_enabled;
        self.raw_mode_enabled = true;
        switch
    }

    /// Leave raw mode. Returns whether the caller must switch the device
    /// now: false means raw mode was already off, and a second call changes
    /// nothing.
    pub fn leave_raw_mode(&mut self) -> (switch: bool)
        ensures
            !final(self).raw_mode_enabled,
            switch == old(self).raw_mode_enabled,
    {
        let switch = self.raw_mode_enabled;
        self.raw_mode_enabled = false;
        switch
    }
}

} // verus!
