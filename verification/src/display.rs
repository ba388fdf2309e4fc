//! The lights of a Wii Remote used as a display, and what an event of the
//! device asks the application to do.

use crate::events::Event;
use crate::keyboard::{key_action, spec_key_action, KeyAction};
use crate::keys::Key;
use vstd::prelude::*;

verus! {

/// The level shown for the connection strength, which is not measured:
/// the best one.
pub const CONNECTION_LEVEL: u8 = 255;

/// The metrics that can be displayed in a [`LightsDisplay`].
#[derive(Debug, Copy, Clone, PartialEq, Eq, Structural)]
pub enum LightsMetric {
    /// Display the battery level.
    Battery,
    /// Display the connection strength level.
    Connection,
}

/// The set of lights in a Wii Remote, used as a display.
#[derive(Debug, Copy, Clone, PartialEq, Eq, Structural)]
pub struct LightsDisplay {
    /// The metric to display.
    pub metric: LightsMetric,
}

/// What an event of the device asks the application to do.
#[derive(Debug, Copy, Clone, PartialEq, Eq, Structural)]
pub enum Command {
    /// Display another metric.
    SetMetric(LightsMetric),
    /// Operate the virtual keyboard.
    Keyboard(KeyAction),
    /// Nothing.
    Ignore,
}

impl LightsDisplay {
    /// The level that the display shows, given the battery level.
    pub open spec fn spec_level(self, battery: u8) -> u8 {
        match self.metric {
            LightsMetric::Battery => battery,
            LightsMetric::Connection => CONNECTION_LEVEL,
        }
    }

    /// The number of the last light that is on for a level: the first
    /// light is always on, and one more for every thirty points.
    pub open spec fn last_light(level: u8) -> int {
        1 + level / 30
    }

    /// Creates the display of a Wii Remote. The connection strength is
    /// probably high immediately after pairing, so the display shows the
    /// battery level by default.
    pub fn new() -> (display: LightsDisplay)
        ensures
            display.metric == LightsMetric::Battery,
    {
        LightsDisplay { metric: LightsMetric::Battery }
    }

    /// Tells whether the display needs the battery level of the device.
    pub fn needs_battery(&self) -> (needed: bool)
        ensures
            needed == (self.metric == LightsMetric::Battery),
    {
        match self.metric {
            LightsMetric::Battery => true,
            LightsMetric::Connection => false,
        }
    }

    /// Computes the state of the four lights according to the current
    /// metric, the left-most light first. `battery` is the battery level
    /// of the device, from 0 to 100; it counts only where the display
    /// shows it.
    pub fn update(&self, battery: u8) -> (lights: [bool; 4])
        ensures
            forall|ix: int|
                0 <= ix < 4 ==> #[trigger] lights[ix] == (ix + 1 <= Self::last_light(
                    self.spec_level(battery),
                )),
    {
        let level: u8 = match self.metric {
            LightsMetric::Battery => battery,
            LightsMetric::Connection => CONNECTION_LEVEL,
        };
        let last_ix: u8 = 1 + level / 30;
        [1 <= last_ix, 2 <= last_ix, 3 <= last_ix, 4 <= last_ix]
    }

    /// Updates the displayed metric.
    pub fn set_metric(&mut self, metric: LightsMetric)
        ensures
            final(self).metric == metric,
    {
        self.metric = metric;
    }
}

/// What an event asks the application to do: the keys 1 and 2 choose the
/// metric on display, whatever their state; any other key of the Wii
/// Remote goes to the virtual keyboard if it is mapped; everything else
/// is ignored.
pub open spec fn spec_handle(event: Event) -> Command {
    match event {
        Event::Key(Key::One, _) => Command::SetMetric(LightsMetric::Battery),
        Event::Key(Key::Two, _) => Command::SetMetric(LightsMetric::Connection),
        Event::Key(key, state) => match spec_key_action(key, state) {
            Some(action) => Command::Keyboard(action),
            None => Command::Ignore,
        },
        _ => Command::Ignore,
    }
}

/// Decides what an event of the device asks the application to do.
pub fn handle(event: &Event) -> (command: Command)
    ensures
        command == spec_handle(*event),
{
    match event {
        Event::Key(key, state) => match key {
            Key::One => Command::SetMetric(LightsMetric::Battery),
            Key::Two => Command::SetMetric(LightsMetric::Connection),
            _ => match key_action(key, state) {
                Some(action) => Command::Keyboard(action),
                None => Command::Ignore,
            },
        },
        _ => Command::Ignore,
    }
}

/// The first light is on at every level, and a light is never on while
/// one to its left is off.
pub proof fn lemma_lights_fill_from_the_left(level: u8, ix: int)
    requires
        1 <= ix < 4,
    ensures
        1 <= LightsDisplay::last_light(level),
        ix + 1 <= LightsDisplay::last_light(level) ==> ix <= LightsDisplay::last_light(level),
{
}

} // verus!
