//! The peripheral's connection lifecycle: advertise until a central
//! connects, serve its attribute requests until it leaves, advertise again.
//! Each step takes the outcome of the last piece of outside work as an event
//! and names the next piece as an action.

use vstd::prelude::*;

verus! {

/// What brought the peripheral to a halt.
#[derive(Debug, Clone, Copy, PartialEq, Eq, Structural)]
pub enum Fault {
    /// The advertising payload did not fit in 31 bytes.
    PayloadTooLarge,
    /// The advertising window could not be started.
    AdvertiseFailed,
    /// Accepting the central's connection failed.
    AcceptFailed,
    /// The new connection could not be bound to the attribute server.
    BindFailed,
}

/// Where a fault arose, for the diagnostic the device halts with.
#[derive(Debug, Clone, Copy, PartialEq, Eq, Structural)]
pub enum FaultOrigin {
    /// While advertising or accepting a connection.
    Advertising,
    /// While setting up attribute service on a connection.
    Gatt,
}

/// The origin of each fault.
pub open spec fn spec_origin(fault: Fault) -> FaultOrigin {
    match fault {
        Fault::BindFailed => FaultOrigin::Gatt,
        _ => FaultOrigin::Advertising,
    }
}

impl Fault {
    /// Where this fault arose.
    pub fn origin(&self) -> (r: FaultOrigin)
        ensures
            r == spec_origin(*self),
    {
        match self {
            Fault::BindFailed => FaultOrigin::Gatt,
            _ => FaultOrigin::Advertising,
        }
    }
}

/// The lifecycle's phases.
#[derive(Debug, Clone, Copy, PartialEq, Eq, Structural)]
pub enum Phase {
    /// Not started.
    Idle,
    /// An advertising window is open; waiting for a central.
    Advertising,
    /// One central is connected, known by its connection handle.
    Connected { handle: u16 },
    /// Stopped for good.
    Halted { fault: Fault },
}

/// The outcome of the outside work that the last action asked for.
#[derive(Debug, Clone, Copy, PartialEq, Eq, Structural)]
pub enum Event {
    /// The device is powered and the stack is running.
    Start,
    /// The advertising payload could not be encoded.
    PayloadTooLarge,
    /// Starting the advertising window failed.
    AdvertiseFailed,
    /// Accepting a connection failed.
    AcceptFailed,
    /// Binding a connection to the attribute server failed.
    BindFailed,
    /// A central connected and was bound to the attribute server.
    Connected { handle: u16 },
    /// The central went away, with the link layer's reason code.
    Disconnected { reason: u8 },
    /// An attribute request arrived; `accepted` tells whether it could be
    /// answered from the attribute table.
    Request { accepted: bool },
    /// Any other connection event.
    Other,
}

/// The outside work to do next.
#[derive(Debug, Clone, Copy, PartialEq, Eq, Structural)]
pub enum Action {
    /// Build the payload, open an advertising window and wait for a central.
    Advertise,
    /// Wait for the next event of the current phase.
    Await,
    /// Send the reply to the request, then wait for the next event.
    Reply,
    /// Log that the request could not be answered, then wait for the next
    /// event; the connection stays open.
    LogRequestFailure,
    /// Turn the extra connection away; the one already open is kept.
    RefuseConnection,
    /// Stop with a diagnostic for this fault.
    Halt { fault: Fault },
}

/// The lifecycle's state.
#[derive(Debug, Clone, Copy, PartialEq, Eq, Structural)]
pub struct Session {
    /// The current phase.
    pub phase: Phase,
    /// Connections served to their end, saturating at `u64::MAX`.
    pub cycles: u64,
    /// Attribute requests that could not be answered, saturating at
    /// `u64::MAX`.
    pub failed_requests: u64,
    /// The reason code of the last disconnection.
    pub last_disconnect_reason: Option<u8>,
}

/// One more, short of overflow.
pub open spec fn saturating_inc(n: u64) -> u64 {
    if n < u64::MAX {
        (n + 1) as u64
    } else {
        n
    }
}

/// The action that `event` calls for in state `s`.
pub open spec fn next_action(s: Session, event: Event) -> Action {
    match s.phase {
        Phase::Idle => match event {
            Event::Start => Action::Advertise,
            _ => Action::Await,
        },
        Phase::Advertising => match event {
            Event::PayloadTooLarge => Action::Halt { fault: Fault::PayloadTooLarge },
            Event::AdvertiseFailed => Action::Halt { fault: Fault::AdvertiseFailed },
            Event::AcceptFailed => Action::Halt { fault: Fault::AcceptFailed },
            Event::BindFailed => Action::Halt { fault: Fault::BindFailed },
            Event::Connected { .. } => Action::Await,
            _ => Action::Advertise,
        },
        Phase::Connected { .. } => match event {
            Event::Disconnected { .. } => Action::Advertise,
            Event::Request { accepted } => if accepted {
                Action::Reply
            } else {
                Action::LogRequestFailure
            },
            Event::Connected { .. } => Action::RefuseConnection,
            _ => Action::Await,
        },
        Phase::Halted { fault } => Action::Halt { fault },
    }
}

/// The state that `event` leads to from `s`.
pub open spec fn next_state(s: Session, event: Event) -> Session {
    match s.phase {
        Phase::Idle => match event {
            Event::Start => Session { phase: Phase::Advertising, ..s },
            _ => s,
        },
        Phase::Advertising => match event {
            Event::PayloadTooLarge => Session {
                phase: Phase::Halted { fault: Fault::PayloadTooLarge },
                ..s
            },
            Event::AdvertiseFailed => Session {
                phase: Phase::Halted { fault: Fault::AdvertiseFailed },
                ..s
            },
            Event::AcceptFailed => Session { phase: Phase::Halted { fault: Fault::AcceptFailed }, ..s },
            Event::BindFailed => Session { phase: Phase::Halted { fault: Fault::BindFailed }, ..s },
            Event::Connected { handle } => Session { phase: Phase::Connected { handle }, ..s },
            _ => s,
        },
        Phase::Connected { .. } => match event {
            Event::Disconnected { reason } => Session {
                phase: Phase::Advertising,
                cycles: saturating_inc(s.cycles),
                last_disconnect_reason: Some(reason),
                ..s
            },
            Event::Request { accepted } => if accepted {
                s
            } else {
                Session { failed_requests: saturating_inc(s.failed_requests), ..s }
            },
            _ => s,
        },
        Phase::Halted { .. } => s,
    }
}

/// The state reached from `s` by taking the events in order.
pub open spec fn run(s: Session, events: Seq<Event>) -> Session
    decreases events.len(),
{
    if events.len() == 0 {
        s
    } else {
        run(next_state(s, events[0]), events.drop_first())
    }
}

/// `n` connections one after another, each from the central with `handle`
/// connecting to it leaving with `reason`.
pub open spec fn connection_cycles(n: nat, handle: u16, reason: u8) -> Seq<Event>
    decreases n,
{
    if n == 0 {
        Seq::empty()
    } else {
        seq![Event::Connected { handle }, Event::Disconnected { reason }] + connection_cycles(
            (n - 1) as nat,
            handle,
            reason,
        )
    }
}

proof fn lemma_run_concat(s: Session, a: Seq<Event>, b: Seq<Event>)
    ensures
        run(s, a + b) == run(run(s, a), b),
    decreases a.len(),
{
    if a.len() == 0 {
        assert(a + b =~= b);
    } else {
        assert((a + b).drop_first() =~= a.drop_first() + b);
        lemma_run_concat(next_state(s, a[0]), a.drop_first(), b);
    }
}

/// While a central is connected, no event connects another: the phase stays
/// on the same connection or leaves the connected phase, and a second
/// connection is turned away with the state unchanged.
pub proof fn lemma_single_connection(s: Session, event: Event, handle: u16)
    requires
        s.phase == (Phase::Connected { handle }),
    ensures
        next_state(s, event).phase is Connected ==> next_state(s, event).phase == (Phase::Connected { handle }),
        event is Connected ==> next_state(s, event) == s && next_action(s, event) == Action::RefuseConnection,
{
}

/// A disconnection brings the device straight back to advertising, and `n`
/// connect-disconnect cycles from advertising end advertising again, with
/// `n` more cycles counted and the request failure count untouched.
pub proof fn lemma_readvertise_after_disconnect(s: Session, n: nat, handle: u16, reason: u8)
    requires
        s.phase == Phase::Advertising,
        s.cycles + n <= u64::MAX,
    ensures
        next_state(Session { phase: Phase::Connected { handle }, ..s }, Event::Disconnected { reason }).phase
            == Phase::Advertising,
        next_action(Session { phase: Phase::Connected { handle }, ..s }, Event::Disconnected { reason })
            == Action::Advertise,
        run(s, connection_cycles(n, handle, reason)).phase == Phase::Advertising,
        run(s, connection_cycles(n, handle, reason)).cycles == s.cycles + n,
        run(s, connection_cycles(n, handle, reason)).failed_requests == s.failed_requests,
        n > 0 ==> run(s, connection_cycles(n, handle, reason)).last_disconnect_reason == Some(reason),
    decreases n,
{
    if n > 0 {
        let pair = seq![Event::Connected { handle }, Event::Disconnected { reason }];
        let rest = connection_cycles((n - 1) as nat, handle, reason);
        lemma_run_concat(s, pair, rest);
        let s1 = next_state(s, pair[0]);
        let s2 = next_state(s1, pair[1]);
        assert(pair.drop_first().drop_first() =~= Seq::<Event>::empty());
        assert(pair.drop_first()[0] == pair[1]);
        assert(run(s1, pair.drop_first()) == run(s2, pair.drop_first().drop_first()));
        assert(run(s, pair) == s2);
        lemma_readvertise_after_disconnect(s2, (n - 1) as nat, handle, reason);
    }
}

/// A request that cannot be answered is logged and leaves the connection
/// open, and a good request after it on the same connection is answered.
pub proof fn lemma_bad_request_keeps_connection(s: Session, handle: u16)
    requires
        s.phase == (Phase::Connected { handle }),
    ensures
        next_action(s, Event::Request { accepted: false }) == Action::LogRequestFailure,
        next_state(s, Event::Request { accepted: false }).phase == (Phase::Connected { handle }),
        next_action(next_state(s, Event::Request { accepted: false }), Event::Request { accepted: true })
            == Action::Reply,
        next_state(next_state(s, Event::Request { accepted: false }), Event::Request { accepted: true }).phase
            == (Phase::Connected { handle }),
{
}

/// A halted device stays halted, whatever comes.
pub proof fn lemma_halt_is_final(s: Session, event: Event, fault: Fault)
    requires
        s.phase == (Phase::Halted { fault }),
    ensures
        next_state(s, event) == s,
        next_action(s, event) == (Action::Halt { fault }),
{
}

fn saturating_increment(n: u64) -> (r: u64)
    ensures
        r == saturating_inc(n),
{
    if n < u64::MAX {
        n + 1
    } else {
        n
    }
}

impl Session {
    /// A session that has not started.
    pub fn new() -> (r: Session)
        ensures
            r == (Session {
                phase: Phase::Idle,
                cycles: 0,
                failed_requests: 0,
                last_disconnect_reason: None,
            }),
    {
        Session { phase: Phase::Idle, cycles: 0, failed_requests: 0, last_disconnect_reason: None }
    }

    /// Takes the outcome of the last action and returns the next one.
    pub fn handle(&mut self, event: Event) -> (action: Action)
        ensures
            *final(self) == next_state(*old(self), event),
            action == next_action(*old(self), event),
    {
        match self.phase {
            Phase::Idle => match event {
                Event::Start => {
                    self.phase = Phase::Advertising;
                    Action::Advertise
                },
                _ => Action::Await,
            },
            Phase::Advertising => match event {
                Event::PayloadTooLarge => self.halt(Fault::PayloadTooLarge),
                Event::AdvertiseFailed => self.halt(Fault::AdvertiseFailed),
                Event::AcceptFailed => self.halt(Fault::AcceptFailed),
                Event::BindFailed => self.halt(Fault::BindFailed),
                Event::Connected { handle } => {
                    self.phase = Phase::Connected { handle };
                    Action::Await
                },
                _ => Action::Advertise,
            },
            Phase::Connected { .. } => match event {
                Event::Disconnected { reason } => {
                    self.phase = Phase::Advertising;
                    self.cycles = saturating_increment(self.cycles);
                    self.last_disconnect_reason = Some(reason);
                    Action::Advertise
                },
                Event::Request { accepted } => {
                    if accepted {
                        Action::Reply
                    } else {
                        self.failed_requests = saturating_increment(self.failed_requests);
                        Action::LogRequestFailure
                    }
                },
                Event::Connected { .. } => Action::RefuseConnection,
                _ => Action::Await,
            },
            Phase::Halted { fault } => Action::Halt { fault },
        }
    }

    fn halt(&mut self, fault: Fault) -> (action: Action)
        ensures
            *final(self) == (Session { phase: Phase::Halted { fault }, ..*old(self) }),
            action == (Action::Halt { fault }),
    {
        self.phase = Phase::Halted { fault };
        Action::Halt { fault }
    }
}

} // verus!
