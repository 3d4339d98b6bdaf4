//! The turn-taking protocol over the launcher slot, the session that drives
//! it, the order in which a launch releases what it acquired, and the guard
//! against faults inside fault handling.
use vstd::prelude::*;

verus! {

/// Who may touch the launcher slot.
#[derive(Clone, Copy, Debug, PartialEq, Eq, Structural)]
pub enum HandshakeState {
    NotStarted,
    AwaitingGameAck,
    AwaitingLauncherTurn,
    Completed,
    Aborted,
}

/// What happened on the channel.
#[derive(Clone, Copy, Debug, PartialEq, Eq, Structural)]
pub enum Event {
    /// The launcher wrote a record into its slot and signalled the game.
    LauncherWrote,
    /// The game signalled that it has read the slot.
    GameAcked,
    /// A bounded wait on the game ran out.
    TimedOut,
    /// The game wrote an inconsistent record.
    ProtocolViolation,
    /// The launcher told the game that no more configuration follows.
    LauncherCompleted,
}

/// The state after `e` in state `s`; `None` where `e` is not allowed there.
pub open spec fn spec_step(s: HandshakeState, e: Event) -> Option<HandshakeState> {
    match (s, e) {
        (HandshakeState::NotStarted, Event::LauncherWrote) => Some(HandshakeState::AwaitingGameAck),
        (HandshakeState::AwaitingLauncherTurn, Event::LauncherWrote) => Some(
            HandshakeState::AwaitingGameAck,
        ),
        (HandshakeState::AwaitingGameAck, Event::GameAcked) => Some(
            HandshakeState::AwaitingLauncherTurn,
        ),
        (HandshakeState::AwaitingGameAck, Event::TimedOut) => Some(HandshakeState::Aborted),
        (HandshakeState::NotStarted, Event::ProtocolViolation) => Some(HandshakeState::Aborted),
        (HandshakeState::AwaitingGameAck, Event::ProtocolViolation) => Some(
            HandshakeState::Aborted,
        ),
        (HandshakeState::AwaitingLauncherTurn, Event::ProtocolViolation) => Some(
            HandshakeState::Aborted,
        ),
        (HandshakeState::NotStarted, Event::LauncherCompleted) => Some(HandshakeState::Completed),
        (HandshakeState::AwaitingLauncherTurn, Event::LauncherCompleted) => Some(
            HandshakeState::Completed,
        ),
        _ => None,
    }
}

/// The transition function of the protocol.
pub fn step(s: HandshakeState, e: Event) -> (r: Option<HandshakeState>)
    ensures
        r == spec_step(s, e),
{
    match (s, e) {
        (HandshakeState::NotStarted, Event::LauncherWrote)
        | (HandshakeState::AwaitingLauncherTurn, Event::LauncherWrote) => Some(
            HandshakeState::AwaitingGameAck,
        ),
        (HandshakeState::AwaitingGameAck, Event::GameAcked) => Some(
            HandshakeState::AwaitingLauncherTurn,
        ),
        (HandshakeState::AwaitingGameAck, Event::TimedOut) => Some(HandshakeState::Aborted),
        (HandshakeState::NotStarted, Event::ProtocolViolation)
        | (HandshakeState::AwaitingGameAck, Event::ProtocolViolation)
        | (HandshakeState::AwaitingLauncherTurn, Event::ProtocolViolation) => Some(
            HandshakeState::Aborted,
        ),
        (HandshakeState::NotStarted, Event::LauncherCompleted)
        | (HandshakeState::AwaitingLauncherTurn, Event::LauncherCompleted) => Some(
            HandshakeState::Completed,
        ),
        _ => None,
    }
}

/// The state after the trace `events` from `s`; `None` where the protocol
/// refuses one of them.
pub open spec fn run(s: HandshakeState, events: Seq<Event>) -> Option<HandshakeState>
    decreases events.len(),
{
    if events.len() == 0 {
        Some(s)
    } else {
        match spec_step(s, events[0]) {
            Some(t) => run(t, events.drop_first()),
            None => None,
        }
    }
}

/// The outcomes of waiting for the game's acknowledgement.
pub open spec fn is_wait_outcome(e: Event) -> bool {
    e == Event::GameAcked || e == Event::TimedOut || e == Event::ProtocolViolation
}

/// In every trace that the protocol accepts, from any state, a write into the
/// launcher slot is followed directly by the outcome of the wait for the
/// game's acknowledgement, never by another write.
pub proof fn lemma_write_waits_for_ack(s: HandshakeState, events: Seq<Event>, i: int)
    requires
        run(s, events) is Some,
        0 <= i,
        i + 1 < events.len(),
        events[i] == Event::LauncherWrote,
    ensures
        is_wait_outcome(events[i + 1]),
        events[i + 1] != Event::LauncherWrote,
    decreases i,
{
    let t = spec_step(s, events[0])->0;
    let rest = events.drop_first();
    if i == 0 {
        assert(t == HandshakeState::AwaitingGameAck);
        assert(rest[0] == events[1]);
        assert(spec_step(t, rest[0]) is Some);
    } else {
        assert(rest[i - 1] == events[i]);
        assert(rest[i] == events[i + 1]);
        lemma_write_waits_for_ack(t, rest, i - 1);
    }
}

/// What the launcher does next.
#[derive(Clone, Copy, Debug, PartialEq, Eq, Structural)]
pub enum Action {
    /// Write message number `n` of the sequence into the launcher slot and
    /// signal that the game can read.
    Write(usize),
    /// Wait, bounded, for the game to signal that it has read the slot.
    AwaitAck,
    /// Tell the game that no more configuration follows.
    SignalCompleted,
    /// The handshake is over: wait for the game to exit.
    WaitForExit,
}

/// A handshake that delivers a fixed sequence of messages.
pub struct Handshake {
    pub state: HandshakeState,
    /// Messages written so far.
    pub sent: usize,
    /// Messages in the sequence.
    pub total: usize,
}

impl Handshake {
    pub open spec fn wf(&self) -> bool {
        &&& self.sent <= self.total
        &&& self.state == HandshakeState::NotStarted ==> self.sent == 0
        &&& self.state == HandshakeState::AwaitingGameAck ==> self.sent >= 1
        &&& self.state == HandshakeState::Completed ==> self.sent == self.total
    }

    pub open spec fn spec_next_action(&self) -> Action {
        match self.state {
            HandshakeState::NotStarted | HandshakeState::AwaitingLauncherTurn => if self.sent
                < self.total {
                Action::Write(self.sent)
            } else {
                Action::SignalCompleted
            },
            HandshakeState::AwaitingGameAck => Action::AwaitAck,
            HandshakeState::Completed | HandshakeState::Aborted => Action::WaitForExit,
        }
    }

    /// Whether `e` is allowed now: the protocol allows it, a write has a
    /// message left to write, and completion comes after the last message.
    pub open spec fn accepts(&self, e: Event) -> bool {
        &&& spec_step(self.state, e) is Some
        &&& e == Event::LauncherWrote ==> self.sent < self.total
        &&& e == Event::LauncherCompleted ==> self.sent == self.total
    }

    /// A handshake that will deliver `total` messages.
    pub fn new(total: usize) -> (r: Handshake)
        ensures
            r.wf(),
            r.state == HandshakeState::NotStarted,
            r.sent == 0,
            r.total == total,
    {
        Handshake { state: HandshakeState::NotStarted, sent: 0, total }
    }

    pub fn next_action(&self) -> (r: Action)
        ensures
            r == self.spec_next_action(),
    {
        match self.state {
            HandshakeState::NotStarted | HandshakeState::AwaitingLauncherTurn => {
                if self.sent < self.total {
                    Action::Write(self.sent)
                } else {
                    Action::SignalCompleted
                }
            },
            HandshakeState::AwaitingGameAck => Action::AwaitAck,
            HandshakeState::Completed | HandshakeState::Aborted => Action::WaitForExit,
        }
    }

    /// Records `e`. Returns whether it was allowed; a refused event leaves
    /// the handshake as it was.
    pub fn apply(&mut self, e: Event) -> (accepted: bool)
        requires
            old(self).wf(),
        ensures
            final(self).wf(),
            accepted == old(self).accepts(e),
            accepted ==> final(self).state == spec_step(old(self).state, e)->0,
            accepted ==> final(self).sent == old(self).sent + if e == Event::LauncherWrote {
                1int
            } else {
                0int
            },
            !accepted ==> *final(self) == *old(self),
            final(self).total == old(self).total,
    {
        let next = step(self.state, e);
        match next {
            None => false,
            Some(t) => {
                if e == Event::LauncherWrote {
                    if self.sent >= self.total {
                        return false;
                    }
                    self.sent = self.sent + 1;
                } else if e == Event::LauncherCompleted {
                    if self.sent != self.total {
                        return false;
                    }
                }
                self.state = t;
                true
            },
        }
    }
}

/// An operating-system object that a launch acquires.
#[derive(Clone, Copy, Debug, PartialEq, Eq, Structural)]
pub enum Resource {
    GameCanReadSem,
    GameDidReadSem,
    LauncherCanReadSem,
    LauncherDidReadSem,
    SharedMemory,
    MappedView,
    ListenerThread,
    GameProcess,
    GameThread,
}

/// `s` from last to first.
pub open spec fn reversed<T>(s: Seq<T>) -> Seq<T> {
    Seq::new(s.len(), |i: int| s[s.len() - 1 - i])
}

/// What a launch holds, in the order of acquisition, each once.
pub struct Resources {
    pub acquired: Vec<Resource>,
}

impl Resources {
    pub open spec fn wf(&self) -> bool {
        self.acquired@.no_duplicates()
    }

    pub fn new() -> (r: Resources)
        ensures
            r.wf(),
            r.acquired@ == Seq::<Resource>::empty(),
    {
        Resources { acquired: Vec::new() }
    }

    /// Records that `res` was acquired; one already held is not recorded
    /// twice.
    pub fn acquire(&mut self, res: Resource)
        requires
            old(self).wf(),
        ensures
            final(self).wf(),
            old(self).acquired@.contains(res) ==> final(self).acquired@ == old(self).acquired@,
            !old(self).acquired@.contains(res) ==> final(self).acquired@ == old(
                self,
            ).acquired@.push(res),
    {
        let mut i: usize = 0;
        while i < self.acquired.len()
            invariant
                self.acquired@ == old(self).acquired@,
                self.wf(),
                i <= self.acquired@.len(),
                forall|j: int| 0 <= j < i ==> self.acquired@[j] != res,
            decreases self.acquired@.len() - i,
        {
            if self.acquired[i] == res {
                return;
            }
            i = i + 1;
        }
        self.acquired.push(res);
        assert forall|a: int, b: int|
            0 <= a < b < self.acquired@.len() implies self.acquired@[a] != self.acquired@[b] by {
            if b == self.acquired@.len() - 1 {
                assert(self.acquired@[b] == res);
            } else {
                assert(old(self).acquired@[a] == self.acquired@[a]);
            }
        }
    }

    /// The order of release: the reverse of the order of acquisition.
    pub fn release_order(&self) -> (r: Vec<Resource>)
        ensures
            r@ == reversed(self.acquired@),
    {
        let n = self.acquired.len();
        let mut r: Vec<Resource> = Vec::new();
        let mut i: usize = 0;
        while i < n
            invariant
                n == self.acquired@.len(),
                i <= n,
                r@.len() == i,
                forall|j: int| 0 <= j < i ==> r@[j] == self.acquired@[n - 1 - j],
            decreases n - i,
        {
            r.push(self.acquired[n - 1 - i]);
            i = i + 1;
        }
        assert(r@ =~= reversed(self.acquired@));
        r
    }
}

/// Releasing in reverse order of acquisition releases each acquired object
/// exactly once and nothing else.
pub proof fn lemma_release_each_once(acquired: Seq<Resource>)
    requires
        acquired.no_duplicates(),
    ensures
        reversed(acquired).no_duplicates(),
        reversed(acquired).len() == acquired.len(),
        forall|r: Resource| acquired.contains(r) <==> #[trigger] reversed(acquired).contains(r),
{
    let rev = reversed(acquired);
    let n = acquired.len() as int;
    assert forall|a: int, b: int| 0 <= a < b < rev.len() implies rev[a] != rev[b] by {
        assert(rev[a] == acquired[n - 1 - a]);
        assert(rev[b] == acquired[n - 1 - b]);
    }
    assert forall|r: Resource| acquired.contains(r) implies #[trigger] rev.contains(r) by {
        let k = choose|k: int| 0 <= k < n && acquired[k] == r;
        assert(rev[n - 1 - k] == r);
    }
    assert forall|r: Resource| rev.contains(r) implies #[trigger] acquired.contains(r) by {
        let k = choose|k: int| 0 <= k < n && rev[k] == r;
        assert(acquired[n - 1 - k] == r);
    }
}

/// What the fault handler does with a fault.
#[derive(Clone, Copy, Debug, PartialEq, Eq, Structural)]
pub enum FaultResponse {
    /// Log the fault, uninstall the handler, let the fault propagate.
    LogAndUninstall,
    /// A fault while handling one: uninstall at once, log nothing.
    UninstallOnly,
}

/// The one piece of state of the process-wide fault handler.
pub struct FaultGuard {
    pub handling: bool,
}

impl FaultGuard {
    pub fn new() -> (r: FaultGuard)
        ensures
            !r.handling,
    {
        FaultGuard { handling: false }
    }

    /// Decides what to do with a fault; from then on the guard is handling
    /// one.
    pub fn on_fault(&mut self) -> (r: FaultResponse)
        ensures
            final(self).handling,
            r == if old(self).handling {
                FaultResponse::UninstallOnly
            } else {
                FaultResponse::LogAndUninstall
            },
    {
        if self.handling {
            FaultResponse::UninstallOnly
        } else {
            self.handling = true;
            FaultResponse::LogAndUninstall
        }
    }
}

} // verus!
