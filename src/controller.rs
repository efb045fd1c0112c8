use vstd::prelude::*;

verus! {

/// How long one wait for a key press lasts, in milliseconds.
pub const INPUT_POLL_MS: u64 = 250;

/// A key press, as far as the dashboard tells keys apart.
#[derive(Clone, Copy, Debug, PartialEq, Eq, Structural)]
pub enum Key {
    Char(char),
    /// A numbered function key: `F(1)` is F1.
    F(u8),
    Other,
}

/// What the loop does after one wait for input.
#[derive(Clone, Copy, Debug, PartialEq, Eq, Structural)]
pub enum Command {
    /// Keep running: draw the next frame after the delay.
    Continue,
    /// Restore the terminal and leave the loop.
    Quit,
    /// Rescan for devices, then report the new count with `after_rescan`.
    Rescan,
}

/// The dashboard's own state: which device is shown, out of how many.
/// The selection lives only as long as one discovery's list.
#[derive(Clone, Copy, Debug, PartialEq, Eq, Structural)]
pub struct Dashboard {
    pub selected: usize,
    pub device_count: usize,
}

/// The selection after a rescan found `count` devices: kept when still a
/// valid index, else back to the first device.
pub open spec fn selection_after_rescan(selected: nat, count: nat) -> nat {
    if selected >= count {
        0
    } else {
        selected
    }
}

/// The state and command that follow an input (`None`: the wait timed out).
pub open spec fn step(d: Dashboard, input: Option<Key>) -> (Dashboard, Command) {
    match input {
        Some(Key::Char('q')) => (d, Command::Quit),
        Some(Key::Char('p')) => (d, Command::Rescan),
        Some(Key::F(n)) => if (n as nat) < d.device_count {
            (Dashboard { selected: n as usize, ..d }, Command::Continue)
        } else {
            (d, Command::Continue)
        },
        _ => (d, Command::Continue),
    }
}

impl Dashboard {
    /// The selection is a valid index, or the first one when there is nothing to select.
    pub open spec fn wf(&self) -> bool {
        self.selected == 0 || self.selected < self.device_count
    }

    /// A dashboard over a fresh discovery, showing the first device.
    pub fn new(device_count: usize) -> (d: Dashboard)
        ensures
            d.selected == 0,
            d.device_count == device_count,
            d.wf(),
    {
        Dashboard { selected: 0, device_count }
    }

    /// Handles one wait for input: `q` quits, `p` asks for a rescan, a
    /// function key whose number is a valid index selects that device, and
    /// anything else, or no key at all, keeps the dashboard running as it is.
    pub fn on_input(&mut self, input: Option<Key>) -> (c: Command)
        ensures
            (*final(self), c) == step(*old(self), input),
            old(self).wf() ==> final(self).wf(),
    {
        match input {
            Some(Key::Char('q')) => Command::Quit,
            Some(Key::Char('p')) => Command::Rescan,
            Some(Key::F(n)) => {
                if (n as usize) < self.device_count {
                    self.selected = n as usize;
                }
                Command::Continue
            },
            _ => Command::Continue,
        }
    }

    /// Takes the device count of a rescan: a selection that is no longer a
    /// valid index goes back to 0; one that still is stays, even if it now
    /// names another device.
    pub fn after_rescan(&mut self, device_count: usize)
        ensures
            final(self).device_count == device_count,
            final(self).selected == selection_after_rescan(old(self).selected as nat, device_count as nat),
            final(self).wf(),
    {
        if self.selected >= device_count {
            self.selected = 0;
        }
        self.device_count = device_count;
    }
}

/// A rescan that leaves fewer devices than the selected index resets the
/// selection to the first device; one that finds as many devices as before
/// keeps the index as it was, whatever device it now names.
pub proof fn lemma_rescan_selection(d: Dashboard, count: nat)
    requires
        d.wf(),
    ensures
        count <= d.selected ==> selection_after_rescan(d.selected as nat, count) == 0,
        count == d.device_count ==> selection_after_rescan(d.selected as nat, count) == d.selected,
{
}

} // verus!
