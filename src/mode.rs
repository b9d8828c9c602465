use vstd::prelude::*;
use crate::display::Screen;

verus! {

/// The operating mode of the machine.
#[derive(Clone, Copy, Debug, PartialEq, Eq, Structural)]
pub enum BoardState {
    CNC,
    Roller,
}

/// The other mode.
pub open spec fn toggled(m: BoardState) -> BoardState {
    match m {
        BoardState::CNC => BoardState::Roller,
        BoardState::Roller => BoardState::CNC,
    }
}

/// The mode that a level of the mode-indicator output stands for: low is
/// CNC, high is Roller.
pub open spec fn mode_of_level(level: bool) -> BoardState {
    if level {
        BoardState::Roller
    } else {
        BoardState::CNC
    }
}

impl BoardState {
    /// The other mode.
    pub fn toggle(self) -> (r: BoardState)
        ensures
            r == toggled(self),
    {
        match self {
            BoardState::CNC => BoardState::Roller,
            BoardState::Roller => BoardState::CNC,
        }
    }

    /// The level of the mode-indicator output for this mode.
    pub fn level(self) -> (r: bool)
        ensures
            mode_of_level(r) == self,
    {
        match self {
            BoardState::CNC => false,
            BoardState::Roller => true,
        }
    }

    /// The name shown for this mode.
    pub fn name(self) -> (r: &'static str)
        ensures
            self == BoardState::CNC ==> r@ == "CNC"@,
            self == BoardState::Roller ==> r@ == "Roller"@,
    {
        match self {
            BoardState::CNC => "CNC",
            BoardState::Roller => "Roller",
        }
    }
}

impl From<bool> for BoardState {
    fn from(value: bool) -> (r: BoardState) {
        if value {
            BoardState::Roller
        } else {
            BoardState::CNC
        }
    }
}

impl vstd::std_specs::convert::FromSpecImpl<bool> for BoardState {
    open spec fn obeys_from_spec() -> bool {
        true
    }

    open spec fn from_spec(v: bool) -> BoardState {
        mode_of_level(v)
    }
}

/// The operating mode together with the machine-running flag.
///
/// The mode changes only through [`ModeMachine::press`], and only while the
/// machine is stopped.
#[derive(Clone, Copy, Debug)]
pub struct ModeMachine {
    mode: BoardState,
    machine_running: bool,
}

impl ModeMachine {
    /// The current mode.
    pub closed spec fn mode(&self) -> BoardState {
        self.mode
    }

    /// Whether the machine is running.
    pub closed spec fn running(&self) -> bool {
        self.machine_running
    }

    /// Starts in CNC mode with the machine sensor at `machine_running`.
    pub fn new(machine_running: bool) -> (r: Self)
        ensures
            r.mode() == BoardState::CNC,
            r.running() == machine_running,
    {
        ModeMachine { mode: BoardState::CNC, machine_running }
    }

    /// The current mode.
    pub fn current_mode(&self) -> (r: BoardState)
        ensures
            r == self.mode(),
    {
        self.mode
    }

    /// Whether the machine is running.
    pub fn is_machine_running(&self) -> (r: bool)
        ensures
            r == self.running(),
    {
        self.machine_running
    }

    /// Records the machine sensor's level; the mode is untouched.
    pub fn set_machine_running(&mut self, running: bool)
        ensures
            final(self).running() == running,
            final(self).mode() == old(self).mode(),
    {
        self.machine_running = running;
    }

    /// Handles one press of the mode button: with the machine stopped the
    /// mode toggles and the new mode is to be announced; with it running the
    /// mode stays and the warning is to be shown.
    pub fn press(&mut self) -> (r: Screen)
        ensures
            final(self).running() == old(self).running(),
            !old(self).running() ==> final(self).mode() == toggled(old(self).mode()) && r
                == Screen::ModeAnnouncement(final(self).mode()),
            old(self).running() ==> final(self).mode() == old(self).mode() && r
                == Screen::MachineWarning,
    {
        if self.machine_running {
            Screen::MachineWarning
        } else {
            self.mode = self.mode.toggle();
            Screen::ModeAnnouncement(self.mode)
        }
    }
}

} // verus!
