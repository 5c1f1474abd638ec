//! The decisions of the plugin that runs inside X-Plane.
use vstd::prelude::*;

use crate::Mode;
use crate::xplane::ToXPlane;

verus! {

/// Every how many flight-loop calls an unconnected plugin looks for a session.
pub const CONNECT_ATTEMPT_PERIOD: i32 = 20i32;

/// Whether an unconnected plugin looks for a session on the flight-loop
/// call numbered `counter`.
pub fn should_try_connect(counter: i32) -> (b: bool)
    ensures
        b == (counter % CONNECT_ATTEMPT_PERIOD == 0),
{
    counter % CONNECT_ATTEMPT_PERIOD == 0
}

/// What a connected plugin found on its channel from the session.
#[derive(Debug)]
pub enum ChannelEvent<P> {
    /// A message came.
    Received(ToXPlane<P>),
    /// Nothing came.
    Empty,
    /// The session went away.
    Closed,
}

/// What a connected plugin does on one flight-loop call.
pub struct FlightLoopStep<P> {
    /// The plugin's role afterwards.
    pub mode: Mode,
    /// Where the role changed: whether X-Plane's flight model and joystick
    /// are to be overridden.
    pub override_physics: Option<bool>,
    /// An aircraft to put into X-Plane.
    pub apply: Option<P>,
    /// Whether the plugin reports X-Plane's aircraft to the session.
    pub report_primary: bool,
    /// Whether the plugin drops its connection and looks for a session again.
    pub disconnect: bool,
}

/// One flight-loop call of a connected plugin in `mode`, given what came
/// from the session: a closed channel ends the connection and nothing else
/// happens; a new role takes effect at once, and a follower has its flight
/// model overridden; an aircraft is put into X-Plane; a master reports its
/// aircraft.
pub fn flight_loop_step<P>(mode: Mode, event: ChannelEvent<P>) -> (step: FlightLoopStep<P>)
    ensures
        step.disconnect == (event is Closed),
        event is Closed ==> step.mode == mode && step.override_physics is None
            && step.apply is None && !step.report_primary,
        event is Empty ==> step.mode == mode && step.override_physics is None
            && step.apply is None,
        event matches ChannelEvent::Received(ToXPlane::SetMode(m)) ==> step.mode == m
            && step.override_physics == Some(m == Mode::Slave) && step.apply is None,
        event matches ChannelEvent::Received(ToXPlane::SetPrimary(p)) ==> step.mode == mode
            && step.override_physics is None && step.apply == Some(p),
        !(event is Closed) ==> step.report_primary == (step.mode == Mode::Master),
{
    let (new_mode, override_physics, apply, disconnect) = match event {
        ChannelEvent::Received(ToXPlane::SetMode(m)) => {
            let slave = match m {
                Mode::Slave => true,
                _ => false,
            };
            (m, Some(slave), None, false)
        },
        ChannelEvent::Received(ToXPlane::SetPrimary(p)) => (mode, None, Some(p), false),
        ChannelEvent::Empty => (mode, None, None, false),
        ChannelEvent::Closed => (mode, None, None, true),
    };
    let report_primary = !disconnect && match new_mode {
        Mode::Master => true,
        _ => false,
    };
    FlightLoopStep { mode: new_mode, override_physics, apply, report_primary, disconnect }
}

} // verus!
