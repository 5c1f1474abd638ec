//! The decisions of the link between a session and the X-Plane plugin.
use vstd::prelude::*;

use crate::{Error, Mode};

verus! {

/// A message from the thread that talks to the plugin to the session.
#[derive(Debug)]
pub enum FromXPlaneServer<P> {
    /// The plugin connected.
    Connected,
    /// The plugin went away.
    Disconnected,
    /// The aircraft as X-Plane has it.
    Primary(P),
}

/// A message from the session to the thread that talks to the plugin.
#[derive(Debug)]
pub enum ToXPlaneServer<P> {
    /// Put the aircraft here.
    SetPrimary(P),
    /// Take this role.
    SetMode(Mode),
    /// Stop talking to the plugin.
    Disconnect,
}

/// A message to the plugin inside X-Plane.
#[derive(Debug)]
pub enum ToXPlane<P> {
    /// Take this role.
    SetMode(Mode),
    /// Put the aircraft here.
    SetPrimary(P),
}

/// A message from the plugin inside X-Plane.
#[derive(Debug)]
pub enum FromXPlane<P> {
    /// The aircraft as X-Plane has it.
    Primary(P),
}

/// What the session knows of X-Plane: the aircraft as last reported, and
/// whether the plugin is connected. `P` is an aircraft report.
pub struct XPlaneSim<P> {
    current_primary: P,
    is_connected: bool,
}

impl<P> XPlaneSim<P> {
    /// The aircraft as last reported.
    pub closed spec fn current(&self) -> P {
        self.current_primary
    }

    /// Whether the plugin is connected.
    pub closed spec fn connected(&self) -> bool {
        self.is_connected
    }

    /// The state before the plugin connected, showing `initial`.
    pub fn new(initial: P) -> (s: Self)
        ensures
            s.current() == initial,
            !s.connected(),
    {
        XPlaneSim { current_primary: initial, is_connected: false }
    }

    /// Takes in one message from the thread that talks to the plugin;
    /// `Error::Disconnected` where the plugin went away.
    pub fn handle_message(&mut self, msg: FromXPlaneServer<P>) -> (res: Result<(), Error>)
        ensures
            msg is Connected ==> res is Ok && final(self).connected() && final(self).current()
                == old(self).current(),
            msg is Disconnected ==> (res matches Err(Error::Disconnected) && !final(self).connected()
                && final(self).current() == old(self).current()),
            msg matches FromXPlaneServer::Primary(p) ==> (res is Ok && final(self).current() == p
                && final(self).connected() == old(self).connected()),
    {
        match msg {
            FromXPlaneServer::Connected => {
                self.is_connected = true;
                Ok(())
            },
            FromXPlaneServer::Disconnected => {
                self.is_connected = false;
                Err(Error::Disconnected)
            },
            FromXPlaneServer::Primary(primary) => {
                self.current_primary = primary;
                Ok(())
            },
        }
    }

    /// The aircraft as last reported.
    pub fn current_primary(&self) -> (p: &P)
        ensures
            *p == self.current(),
    {
        &self.current_primary
    }

    /// Whether the simulator is ready: whether the plugin is connected.
    pub fn ready(&self) -> (b: bool)
        ensures
            b == self.connected(),
    {
        self.is_connected
    }
}

/// What the thread that talks to the plugin sends once the plugin has
/// connected: to the session that the plugin is there, and to the plugin
/// that it starts as master.
pub fn opening_messages<P>() -> (msgs: (FromXPlaneServer<P>, ToXPlane<P>))
    ensures
        msgs.0 == FromXPlaneServer::<P>::Connected,
        msgs.1 == ToXPlane::<P>::SetMode(Mode::Master),
{
    (FromXPlaneServer::Connected, ToXPlane::SetMode(Mode::Master))
}

/// The message that takes the plugin out of a session.
pub fn closing_message<P>() -> (msg: ToXPlane<P>)
    ensures
        msg == ToXPlane::<P>::SetMode(Mode::Off),
{
    ToXPlane::SetMode(Mode::Off)
}

/// The message the thread that talks to the plugin passes on to the session
/// for a message from the plugin.
pub fn forward_from_xplane<P>(msg: FromXPlane<P>) -> (out: FromXPlaneServer<P>)
    ensures
        msg matches FromXPlane::Primary(p) && out == FromXPlaneServer::Primary(p),
{
    match msg {
        FromXPlane::Primary(primary) => FromXPlaneServer::Primary(primary),
    }
}

/// The message the thread that talks to the plugin passes on to the plugin
/// for a message from the session; `None` where it is to stop.
pub fn forward_to_xplane<P>(msg: ToXPlaneServer<P>) -> (out: Option<ToXPlane<P>>)
    ensures
        msg is Disconnect ==> out is None,
        msg matches ToXPlaneServer::SetMode(m) ==> out == Some(ToXPlane::<P>::SetMode(m)),
        msg matches ToXPlaneServer::SetPrimary(p) ==> out == Some(ToXPlane::SetPrimary(p)),
{
    match msg {
        ToXPlaneServer::SetPrimary(primary) => Some(ToXPlane::SetPrimary(primary)),
        ToXPlaneServer::SetMode(mode) => Some(ToXPlane::SetMode(mode)),
        ToXPlaneServer::Disconnect => None,
    }
}

} // verus!
