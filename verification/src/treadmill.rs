//! The command/event vocabulary shared by every treadmill flavour, the
//! error taxonomy, and a software-only treadmill for exercising observers
//! without hardware.

use vstd::prelude::*;

verus! {

/// Everything that can go wrong while running the treadmill.
#[derive(Clone, Copy, PartialEq, Eq, Debug, Structural)]
pub enum TreadmillError {
    /// A required pin or actuator channel could not be acquired at startup.
    /// Fatal: the control loop never starts.
    Setup,
    /// The signal converter was handed an input it cannot convert
    /// (a zero pulse period).  Reported, never fatal.
    Conversion,
    /// A PWM or GPIO write failed while running.  Reported, never fatal;
    /// the actuator keeps its last known state.
    ActuatorWrite,
    /// The peer end of a channel is gone.  The producer side stops;
    /// a controller treats it like a shutdown request.
    ChannelClosed,
}

/// What a user (through a UI) asks the treadmill to do.
#[derive(Clone, Copy, PartialEq, Eq, Debug, Structural)]
pub enum Command {
    /// Drive the belt at the given speed, in hundredths of a km/h.
    /// Zero or negative means stop.
    SetSpeed(i32),
    /// Pulse the incline motor upwards for a fixed duration.
    RaiseIncline,
    /// Pulse the incline motor downwards for a fixed duration.
    LowerIncline,
    /// Stop the belt and end the control loop for good.
    Shutdown,
}

/// A report attached to [`Event::Message`].
#[derive(Clone, Copy, PartialEq, Eq, Debug, Structural)]
pub enum Notice {
    /// An incline sensor pulse with the given period (milliseconds)
    /// was observed.
    InclinePulse(u64),
    /// A recoverable fault worth showing to the observer.
    Fault(TreadmillError),
}

/// What the treadmill reports back to its observer.
#[derive(Clone, Copy, PartialEq, Eq, Debug, Structural)]
pub enum Event {
    /// The belt speed, in hundredths of a km/h, as last commanded or
    /// as measured from the speed sensor.
    SpeedChanged(i32),
    /// The incline level of the software-only treadmill.
    InclineChanged(i32),
    /// The safety key was pulled out.
    KeyRemoved,
    /// The safety key was put back in.
    KeyInserted,
    /// A textual report, as structured data for the observer to render.
    Message(Notice),
}

/// A treadmill that exists only in memory: commands update a speed and an
/// incline counter and echo events, so observers can be driven without
/// any hardware attached.
pub struct FakeTreadmill {
    /// Current belt speed, hundredths of a km/h.
    pub speed: i32,
    /// Current incline level, never negative.
    pub incline: i32,
    /// False once a shutdown command has been taken.
    pub running: bool,
}

impl FakeTreadmill {
    /// A stopped, level, live treadmill.
    pub fn new() -> (t: FakeTreadmill)
        ensures
            t.speed == 0,
            t.incline == 0,
            t.running,
    {
        FakeTreadmill { speed: 0, incline: 0, running: true }
    }

    /// Take one command and report what changed.
    ///
    /// Speeds are taken verbatim; the incline counter saturates at
    /// `i32::MAX` going up and is clamped at zero going down, with an
    /// event only when it actually moved.  A shutdown zeroes the speed,
    /// reports it, and makes every later command a no-op.
    pub fn handle_command(&mut self, c: Command) -> (events: Vec<Event>)
        ensures
            old(self).incline >= 0 ==> final(self).incline >= 0,
            !old(self).running ==> *final(self) == *old(self) && events@ == Seq::<Event>::empty(),
            old(self).running ==> match c {
                Command::SetSpeed(s) => {
                    &&& final(self).speed == s
                    &&& final(self).incline == old(self).incline
                    &&& final(self).running
                    &&& events@ == seq![Event::SpeedChanged(s)]
                },
                Command::RaiseIncline => {
                    &&& final(self).speed == old(self).speed
                    &&& final(self).incline == (if old(self).incline < i32::MAX {
                        old(self).incline + 1
                    } else {
                        i32::MAX as int
                    })
                    &&& final(self).running
                    &&& events@ == seq![Event::InclineChanged(final(self).incline)]
                },
                Command::LowerIncline => {
                    &&& final(self).speed == old(self).speed
                    &&& final(self).running
                    &&& old(self).incline > 0 ==> final(self).incline == old(self).incline - 1
                        && events@ == seq![Event::InclineChanged(final(self).incline)]
                    &&& old(self).incline <= 0 ==> final(self).incline == old(self).incline
                        && events@ == Seq::<Event>::empty()
                },
                Command::Shutdown => {
                    &&& final(self).speed == 0
                    &&& final(self).incline == old(self).incline
                    &&& !final(self).running
                    &&& events@ == seq![Event::SpeedChanged(0)]
                },
            },
    {
        let mut events: Vec<Event> = Vec::new();
        if !self.running {
            return events;
        }
        match c {
            Command::SetSpeed(s) => {
                self.speed = s;
                events.push(Event::SpeedChanged(self.speed));
            }
            Command::RaiseIncline => {
                if self.incline < i32::MAX {
                    self.incline = self.incline + 1;
                }
                events.push(Event::InclineChanged(self.incline));
            }
            Command::LowerIncline => {
                if self.incline > 0 {
                    self.incline = self.incline - 1;
                    events.push(Event::InclineChanged(self.incline));
                }
            }
            Command::Shutdown => {
                self.speed = 0;
                self.running = false;
                events.push(Event::SpeedChanged(0));
            }
        }
        events
    }
}

} // verus!
