use vstd::prelude::*;

pub mod cli;
pub mod msfs;
pub mod net;
pub mod plugin;
pub mod xplane;

verus! {

/// How long a master waits between two reports of its aircraft, in nanoseconds.
pub const SEND_PRIMARY_INTERVAL_NANOS: u64 = 200_000_000u64;

/// How long a follower takes to glide from one received report to the next, in nanoseconds.
pub const INTERPOLATION_TIME_NANOS: u64 = 250_000_000u64;

/// Everything that can go wrong while taking part in a session.
#[derive(Debug)]
pub enum Error {
    /// The simulator went away.
    Disconnected,
    /// A peer announced a packet longer than `net::MAX_PACKET_SIZE`.
    PacketTooLarge,
    /// The server refused the password.
    WrongPassword,
    /// The server already has a master.
    DifferentMasterAlreadyConnected,
    /// Reading from or writing to a connection failed; the text describes the failure.
    Io(String),
    /// A packet's bytes did not decode; the text describes the failure.
    Deserialization(String),
}

/// The role a simulator plays in a shared session.
#[derive(Debug, Clone, Copy, PartialEq, Eq, Structural, PartialOrd, Ord, Hash)]
pub enum Mode {
    /// Not taking part in a session.
    Off,
    /// The simulator whose aircraft everybody else follows.
    Master,
    /// A simulator that mirrors the master's aircraft.
    Slave,
}

impl Default for Mode {
    fn default() -> (mode: Mode)
        ensures
            mode == Mode::Off,
    {
        Mode::Off
    }
}

/// The text shown to a user for a mode.
pub open spec fn mode_text(mode: Mode) -> Seq<char> {
    match mode {
        Mode::Off => "Disconnected"@,
        Mode::Master => "Master"@,
        Mode::Slave => "Slave"@,
    }
}

impl Mode {
    /// The text shown to a user for this mode.
    pub fn to_string(&self) -> (text: String)
        ensures
            text@ == mode_text(*self),
            *self == Mode::Off ==> text@ == "Disconnected"@,
            *self == Mode::Master ==> text@ == "Master"@,
            *self == Mode::Slave ==> text@ == "Slave"@,
    {
        match self {
            Mode::Off => "Disconnected".to_owned(),
            Mode::Master => "Master".to_owned(),
            Mode::Slave => "Slave".to_owned(),
        }
    }
}

/// Time that has passed from `since` to `now`; a clock reading earlier than
/// `since` counts as no time at all.
pub open spec fn elapsed(since: u64, now: u64) -> int {
    if now >= since {
        now - since
    } else {
        0
    }
}

fn elapsed_nanos(since: u64, now: u64) -> (e: u64)
    ensures
        e == elapsed(since, now),
{
    if now >= since {
        now - since
    } else {
        0
    }
}

/// The timing and role state of a session, without the aircraft reports.
pub struct SessionView {
    pub primary_recv_time: u64,
    pub last_send: u64,
    pub master: bool,
    pub first_packet_received: Option<u64>,
    pub server_mode_set: bool,
}

/// A session is handed over to the session server only after a report came in.
pub open spec fn session_wf(s: SessionView) -> bool {
    s.server_mode_set ==> s.first_packet_received is Some
}

/// The state of a session after a follower received a report at `now`,
/// and whether the simulator is to be switched to `Mode::Slave` now.
pub open spec fn after_receive(s: SessionView, now: u64) -> (SessionView, bool) {
    let first = if !s.server_mode_set && s.first_packet_received is None {
        Some(now)
    } else {
        s.first_packet_received
    };
    let switch = !s.server_mode_set && (first matches Some(t) && elapsed(t, now)
        > INTERPOLATION_TIME_NANOS);
    (
        SessionView {
            primary_recv_time: now,
            first_packet_received: first,
            server_mode_set: s.server_mode_set || switch,
            ..s
        },
        switch,
    )
}

/// How far, in nanoseconds and at most `INTERPOLATION_TIME_NANOS`, the glide
/// to the current report has gone at `now`: the time since the report came in.
pub open spec fn progress(s: SessionView, now: u64) -> int {
    let e = elapsed(s.primary_recv_time, now);
    if e < INTERPOLATION_TIME_NANOS {
        e
    } else {
        INTERPOLATION_TIME_NANOS as int
    }
}

/// What a session has to do on one tick of its loop.
#[derive(Debug, Clone, Copy, PartialEq, Eq, Structural)]
pub enum TickAction {
    /// A master reads its aircraft and sends it to the server.
    SendPrimary,
    /// A master has sent a report recently and waits.
    Wait,
    /// A follower takes the reports that came in (see `receive_primary`) and
    /// then, where it holds a report (see `shows_aircraft`), sets the
    /// interpolated aircraft.
    Follow,
}

/// What a session does on a tick at `now`: a follower follows; a master
/// reports its aircraft once more than `SEND_PRIMARY_INTERVAL_NANOS` have
/// passed since its last report, and waits otherwise.
pub open spec fn tick_action(s: SessionView, now: u64) -> TickAction {
    if !s.master {
        TickAction::Follow
    } else if elapsed(s.last_send, now) > SEND_PRIMARY_INTERVAL_NANOS {
        TickAction::SendPrimary
    } else {
        TickAction::Wait
    }
}

/// The decisions of one simulator taking part in a session: when a master
/// reports its aircraft, what a follower shows between two reports, and when
/// a follower's simulator is handed over to the session. `P` is an aircraft report.
pub struct CrossFs<P> {
    current_primary_recv: Option<P>,
    previous_primary_recv: Option<P>,
    primary_recv_time: u64,
    last_send: u64,
    master: bool,
    first_packet_recieved: Option<u64>,
    server_mode_set: bool,
}

impl<P> View for CrossFs<P> {
    type V = SessionView;

    closed spec fn view(&self) -> SessionView {
        SessionView {
            primary_recv_time: self.primary_recv_time,
            last_send: self.last_send,
            master: self.master,
            first_packet_received: self.first_packet_recieved,
            server_mode_set: self.server_mode_set,
        }
    }
}

impl<P> CrossFs<P> {
    /// A report has come in exactly when the time of the first one is known;
    /// the simulator is handed over only after a report; a glide has a start
    /// only where it has an end.
    #[verifier::type_invariant]
    spec fn inv(self) -> bool {
        &&& (self.current_primary_recv is Some <==> self.first_packet_recieved is Some)
        &&& (self.server_mode_set ==> self.first_packet_recieved is Some)
        &&& (self.previous_primary_recv is Some ==> self.current_primary_recv is Some)
    }

    /// The report received last; `None` before the first one.
    pub closed spec fn current(&self) -> Option<P> {
        self.current_primary_recv
    }

    /// Where the glide to the current report starts; `None` where there is
    /// no glide and the current report is shown as it is.
    pub closed spec fn previous(&self) -> Option<P> {
        self.previous_primary_recv
    }

    /// A session that starts at `now`, before any report has come in.
    pub fn new(master: bool, now: u64) -> (s: Self)
        ensures
            s@ == (SessionView {
                primary_recv_time: now,
                last_send: now,
                master,
                first_packet_received: None,
                server_mode_set: false,
            }),
            s.current() is None,
            s.previous() is None,
            session_wf(s@),
    {
        CrossFs {
            current_primary_recv: None,
            previous_primary_recv: None,
            primary_recv_time: now,
            last_send: now,
            master,
            first_packet_recieved: None,
            server_mode_set: false,
        }
    }

    /// The mode the simulator is put into as soon as it is ready: a master at
    /// once; a follower only after its first reports (see `receive_primary`),
    /// so that it does not jump to where no report has been yet.
    pub fn startup_mode(&self) -> (mode: Option<Mode>)
        ensures
            mode == (if self@.master {
                Some(Mode::Master)
            } else {
                None
            }),
    {
        if self.master {
            Some(Mode::Master)
        } else {
            None
        }
    }

    /// What to do on a tick at `now`.
    pub fn tick(&self, now: u64) -> (action: TickAction)
        ensures
            action == tick_action(self@, now),
            !self@.master ==> action == TickAction::Follow,
            self@.master && now >= self@.last_send && now - self@.last_send
                > SEND_PRIMARY_INTERVAL_NANOS ==> action == TickAction::SendPrimary,
            self@.master && (now < self@.last_send || now - self@.last_send
                <= SEND_PRIMARY_INTERVAL_NANOS) ==> action == TickAction::Wait,
    {
        if !self.master {
            TickAction::Follow
        } else if elapsed_nanos(self.last_send, now) > SEND_PRIMARY_INTERVAL_NANOS {
            TickAction::SendPrimary
        } else {
            TickAction::Wait
        }
    }

    /// Whether a follower, having taken the reports that came in, sets its
    /// aircraft: exactly when it holds a report, so from the tick that brings
    /// the first report on, and never before it.
    pub fn shows_aircraft(&self) -> (set: bool)
        ensures
            set == self.current() is Some,
            set == self@.first_packet_received is Some,
    {
        proof {
            use_type_invariant(self);
        }
        self.current_primary_recv.is_some()
    }

    /// Notes that a report was sent at `now`.
    pub fn record_send(&mut self, now: u64)
        ensures
            final(self)@ == (SessionView { last_send: now, ..old(self)@ }),
            final(self).current() == old(self).current(),
            final(self).previous() == old(self).previous(),
            session_wf(final(self)@),
    {
        proof {
            use_type_invariant(&*self);
        }
        self.last_send = now;
    }

    /// How far the glide to the current report has gone at `now`.
    pub fn interpolation_progress(&self, now: u64) -> (p: u64)
        ensures
            p == progress(self@, now),
            now >= self@.primary_recv_time && now - self@.primary_recv_time
                < INTERPOLATION_TIME_NANOS ==> p == now - self@.primary_recv_time,
            now >= self@.primary_recv_time && now - self@.primary_recv_time
                >= INTERPOLATION_TIME_NANOS ==> p == INTERPOLATION_TIME_NANOS,
            now < self@.primary_recv_time ==> p == 0,
    {
        let e = elapsed_nanos(self.primary_recv_time, now);
        if e < INTERPOLATION_TIME_NANOS {
            e
        } else {
            INTERPOLATION_TIME_NANOS
        }
    }

    /// The report received last; `None` before the first one.
    pub fn current_primary(&self) -> (p: Option<&P>)
        ensures
            p is Some == self.current() is Some,
            p matches Some(r) ==> *r == self.current()->Some_0,
    {
        match &self.current_primary_recv {
            Some(r) => Some(r),
            None => None,
        }
    }

    /// Where the glide to the current report starts; `None` where there is none.
    pub fn previous_primary(&self) -> (p: Option<&P>)
        ensures
            p is Some == self.previous() is Some,
            p matches Some(r) ==> *r == self.previous()->Some_0,
    {
        match &self.previous_primary_recv {
            Some(r) => Some(r),
            None => None,
        }
    }

    /// Takes in a report that arrived at `now`; `shown` is what the follower
    /// showed at that moment. That becomes the start of the glide to the new
    /// report, except for the first report, which is shown as it is, since
    /// nothing has been shown before it. Returns whether the simulator is to
    /// be switched to `Mode::Slave` now.
    pub fn receive_primary(&mut self, primary: P, shown: Option<P>, now: u64) -> (switch: bool)
        ensures
            (final(self)@, switch) == after_receive(old(self)@, now),
            final(self)@.primary_recv_time == now,
            final(self)@.last_send == old(self)@.last_send,
            final(self)@.master == old(self)@.master,
            old(self)@.first_packet_received is None ==> final(self)@.first_packet_received
                == Some(now),
            old(self)@.first_packet_received is Some ==> final(self)@.first_packet_received
                == old(self)@.first_packet_received,
            switch == (!old(self)@.server_mode_set && (old(self)@.first_packet_received matches Some(
                t,
            ) && now >= t && now - t > INTERPOLATION_TIME_NANOS)),
            final(self)@.server_mode_set == (old(self)@.server_mode_set || switch),
            final(self).current() == Some(primary),
            final(self).previous() == (if old(self).current() is None {
                None
            } else {
                shown
            }),
            session_wf(final(self)@),
    {
        proof {
            use_type_invariant(&*self);
        }
        let mut state: CrossFs<P> = CrossFs::new(self.master, now);
        std::mem::swap(&mut state, self);
        let CrossFs {
            current_primary_recv,
            previous_primary_recv: _,
            primary_recv_time: _,
            last_send,
            master,
            first_packet_recieved,
            server_mode_set,
        } = state;
        let previous = match current_primary_recv {
            Some(_) => shown,
            None => None,
        };
        let first = if !server_mode_set && first_packet_recieved.is_none() {
            Some(now)
        } else {
            first_packet_recieved
        };
        let mut switch = false;
        if !server_mode_set {
            if let Some(time) = first {
                if elapsed_nanos(time, now) > INTERPOLATION_TIME_NANOS {
                    switch = true;
                }
            }
        }
        *self = CrossFs {
            current_primary_recv: Some(primary),
            previous_primary_recv: previous,
            primary_recv_time: now,
            last_send,
            master,
            first_packet_recieved: first,
            server_mode_set: server_mode_set || switch,
        };
        switch
    }
}

/// A follower sets its aircraft from the tick that brings its first report
/// on, and leaves it alone before: once a report has been taken in, the
/// session holds one (`shows_aircraft` is then true), and without any it holds none.
pub proof fn lemma_aircraft_set_from_first_report(s: SessionView, t: u64)
    requires
        session_wf(s),
    ensures
        after_receive(s, t).0.first_packet_received is Some,
        session_wf(after_receive(s, t).0),
{
}

/// A follower's simulator is switched to `Mode::Slave` at most once: after a
/// report that switched it, no later report switches it again.
pub proof fn lemma_slave_switch_at_most_once(s: SessionView, t1: u64, t2: u64)
    ensures
        after_receive(s, t1).1 ==> !after_receive(after_receive(s, t1).0, t2).1,
        s.server_mode_set ==> !after_receive(s, t1).1 && after_receive(s, t1).0.server_mode_set,
{
}

/// A follower's simulator is switched to `Mode::Slave` only once more than
/// `INTERPOLATION_TIME_NANOS` have passed since the first report came in.
pub proof fn lemma_slave_switch_waits(s: SessionView, now: u64)
    ensures
        after_receive(s, now).1 ==> (after_receive(s, now).0.first_packet_received matches Some(
            t,
        ) && elapsed(t, now) > INTERPOLATION_TIME_NANOS),
        after_receive(s, now).1 ==> s.first_packet_received is Some,
{
}

/// The time of the first report is kept until the simulator is switched.
pub proof fn lemma_first_report_time_kept(s: SessionView, now: u64)
    requires
        s.first_packet_received is Some,
    ensures
        after_receive(s, now).0.first_packet_received == s.first_packet_received,
{
}

/// A master reports at most once per `SEND_PRIMARY_INTERVAL_NANOS`: a tick
/// sends only when more than that has passed since the last report, and after
/// a report at `t` every tick up to `t + SEND_PRIMARY_INTERVAL_NANOS` waits.
/// A follower never reports.
pub proof fn lemma_master_send_interval(s: SessionView, t: u64, now: u64)
    ensures
        tick_action(s, now) == TickAction::SendPrimary ==> s.master && elapsed(s.last_send, now)
            > SEND_PRIMARY_INTERVAL_NANOS,
        s.master && t <= now && now - t <= SEND_PRIMARY_INTERVAL_NANOS ==> tick_action(
            SessionView { last_send: t, ..s },
            now,
        ) == TickAction::Wait,
        !s.master ==> tick_action(s, now) == TickAction::Follow,
{
}

/// The glide never goes past the current report, reaches it once
/// `INTERPOLATION_TIME_NANOS` have passed, and never goes backwards in time.
pub proof fn lemma_progress_bounded_monotone(s: SessionView, t1: u64, t2: u64)
    ensures
        0 <= progress(s, t1) <= INTERPOLATION_TIME_NANOS,
        elapsed(s.primary_recv_time, t1) >= INTERPOLATION_TIME_NANOS ==> progress(s, t1)
            == INTERPOLATION_TIME_NANOS,
        t1 <= t2 ==> progress(s, t1) <= progress(s, t2),
{
}

/// A follower's simulator is switched to `Mode::Slave` on the first report
/// that arrives more than `INTERPOLATION_TIME_NANOS` after the first report,
/// whatever the spacing of the reports in between.
pub proof fn lemma_slave_switch_happens(s: SessionView, t: u64, now: u64)
    requires
        !s.server_mode_set,
        s.first_packet_received == Some(t),
        t <= now,
        now - t > INTERPOLATION_TIME_NANOS,
    ensures
        after_receive(s, now).1,
        after_receive(s, now).0.server_mode_set,
{
}

/// The first report's arrival time is noted when it comes in, and a report
/// before that switches nothing.
pub proof fn lemma_first_report_time_noted(s: SessionView, now: u64)
    requires
        s.first_packet_received is None,
        !s.server_mode_set,
    ensures
        after_receive(s, now).0.first_packet_received == Some(now),
        !after_receive(s, now).1,
{
}

/// Every report starts a new glide: the glide's progress is the time since
/// the last report came in, up to `INTERPOLATION_TIME_NANOS`, and nothing
/// else; so a report that comes in restarts it at zero.
pub proof fn lemma_glide_restarts_on_report(s: SessionView, t: u64, now: u64)
    ensures
        after_receive(s, t).0.primary_recv_time == t,
        progress(after_receive(s, t).0, t) == 0,
        t <= now && now - t < INTERPOLATION_TIME_NANOS ==> progress(after_receive(s, t).0, now)
            == now - t,
        t <= now && now - t >= INTERPOLATION_TIME_NANOS ==> progress(after_receive(s, t).0, now)
            == INTERPOLATION_TIME_NANOS,
        s.primary_recv_time <= now && now - s.primary_recv_time < INTERPOLATION_TIME_NANOS
            ==> progress(s, now) == now - s.primary_recv_time,
{
}

/// A master reports whenever more than `SEND_PRIMARY_INTERVAL_NANOS` have
/// passed since its last report, however long the session has run.
pub proof fn lemma_master_sends_when_due(s: SessionView, t: u64, now: u64)
    requires
        s.master,
        t <= now,
        now - t > SEND_PRIMARY_INTERVAL_NANOS,
    ensures
        tick_action(SessionView { last_send: t, ..s }, now) == TickAction::SendPrimary,
        s.last_send == t ==> tick_action(s, now) == TickAction::SendPrimary,
{
}

} // verus!
