use vstd::prelude::*;
use crate::display::{RenderRequests, Screen};
use crate::mode::{BoardState, ModeMachine, toggled};
use crate::sampler::{ButtonEdge, EdgeDetector, edge_of};
use crate::signal::Signal;

verus! {

/// The control loop's decisions: it samples the mode button and the machine
/// sensor once per polling period, runs the mode state machine, and
/// publishes what changed to the display and LED tasks.
#[derive(Clone, Copy, Debug)]
pub struct ControlLoop {
    button: EdgeDetector,
    sensor: EdgeDetector,
    machine: ModeMachine,
}

impl ControlLoop {
    /// The current mode.
    pub closed spec fn mode(&self) -> BoardState {
        self.machine.mode()
    }

    /// Whether the machine is running, as last sampled.
    pub closed spec fn running(&self) -> bool {
        self.machine.running()
    }

    /// The button level last sampled.
    pub closed spec fn button_level(&self) -> bool {
        self.button.level()
    }

    /// The sensor level last sampled.
    pub closed spec fn sensor_level(&self) -> bool {
        self.sensor.level()
    }

    /// Starts in CNC mode from the live levels of both inputs, asks for the
    /// mode to be announced and for the LEDs to show the sensor.
    pub fn new(
        button_level: bool,
        sensor_level: bool,
        requests: &mut RenderRequests,
        leds: &mut Signal<bool>,
    ) -> (r: Self)
        ensures
            r.mode() == BoardState::CNC,
            r.running() == sensor_level,
            r.button_level() == button_level,
            r.sensor_level() == sensor_level,
            final(requests).mode.pending() == Some(BoardState::CNC),
            final(requests).warning.pending() == old(requests).warning.pending(),
            final(leds).pending() == Some(sensor_level),
    {
        requests.mode.signal(BoardState::CNC);
        leds.signal(sensor_level);
        ControlLoop {
            button: EdgeDetector::new(button_level),
            sensor: EdgeDetector::new(sensor_level),
            machine: ModeMachine::new(sensor_level),
        }
    }

    /// The current mode.
    pub fn current_mode(&self) -> (r: BoardState)
        ensures
            r == self.mode(),
    {
        self.machine.current_mode()
    }

    /// Whether the machine is running, as last sampled.
    pub fn is_machine_running(&self) -> (r: bool)
        ensures
            r == self.running(),
    {
        self.machine.is_machine_running()
    }

    /// One polling period. The sensor is taken first: an edge of it updates
    /// the running flag and asks the LED task to follow, and nothing else.
    /// Then a press of the button either toggles the mode (machine stopped)
    /// or asks for the warning and for the unchanged mode to be shown again
    /// after it (machine running). Returns the new level of the
    /// mode-indicator output when the mode changed.
    pub fn step(
        &mut self,
        button_level: bool,
        sensor_level: bool,
        requests: &mut RenderRequests,
        leds: &mut Signal<bool>,
    ) -> (r: Option<bool>)
        ensures
            final(self).button_level() == button_level,
            final(self).sensor_level() == sensor_level,
            final(self).running() == sensor_level,
            final(leds).pending() == (if sensor_level != old(self).sensor_level() {
                Some(sensor_level)
            } else {
                old(leds).pending()
            }),
            edge_of(old(self).button_level(), button_level) != ButtonEdge::Pressed ==> {
                &&& final(self).mode() == old(self).mode()
                &&& *final(requests) == *old(requests)
                &&& r is None
            },
            edge_of(old(self).button_level(), button_level) == ButtonEdge::Pressed
                && !sensor_level ==> {
                &&& final(self).mode() == toggled(old(self).mode())
                &&& final(requests).mode.pending() == Some(final(self).mode())
                &&& final(requests).warning.pending() == old(requests).warning.pending()
                &&& r == Some(final(self).mode() == BoardState::Roller)
            },
            edge_of(old(self).button_level(), button_level) == ButtonEdge::Pressed
                && sensor_level ==> {
                &&& final(self).mode() == old(self).mode()
                &&& final(requests).warning.pending() == Some(())
                &&& final(requests).mode.pending() == Some(old(self).mode())
                &&& r is None
            },
    {
        if let ButtonEdge::Steady = self.sensor.sample(sensor_level) {
        } else {
            leds.signal(sensor_level);
        }
        self.machine.set_machine_running(sensor_level);
        match self.button.sample(button_level) {
            ButtonEdge::Pressed => match self.machine.press() {
                Screen::ModeAnnouncement(m) => {
                    requests.mode.signal(m);
                    Some(m.level())
                },
                _ => {
                    requests.warning.signal(());
                    requests.mode.signal(self.machine.current_mode());
                    None
                },
            },
            _ => None,
        }
    }
}

} // verus!
