//! The CONNECT byte tunnel as a state machine. The I/O loop that owns the
//! two sockets reports what happened (upgrade finished, connect finished,
//! bytes arrived, a side closed) and performs the action the machine returns
//! (open the outbound connection, write bytes, close both streams). Every
//! guarantee about relayed bytes — order kept, nothing lost before an
//! observed end of stream, nothing relayed after either side closes — is
//! stated and proved here.

use vstd::prelude::*;

verus! {

/// Where the tunnel stands in its life, mirroring the background task of the
/// CONNECT handler: wait for the upgrade, open the outbound connection,
/// relay bytes, stop.
#[derive(Clone, Copy, PartialEq, Eq, Structural, Debug)]
pub enum Phase {
    /// The 200 acknowledgment has been produced; the client connection has
    /// not yet left HTTP framing.
    AwaitingUpgrade,
    /// The client stream is raw; the outbound TCP connect is in flight.
    Connecting,
    /// Both streams are live; bytes move in both directions.
    Relaying,
    /// One side finished or failed; nothing is relayed any more.
    Closed,
}

/// One observation the I/O loop reports to the tunnel.
pub enum TunnelEvent {
    /// The transport finished the HTTP-to-raw upgrade of the client side.
    UpgradeOk,
    /// The upgrade failed; the tunnel never starts.
    UpgradeFailed,
    /// The outbound TCP connection to the target is open.
    ConnectOk,
    /// The outbound TCP connection could not be opened.
    ConnectFailed,
    /// Bytes read from one side, in arrival order.
    Data { from_client: bool, bytes: Vec<u8> },
    /// One side reached end of stream.
    Eof { from_client: bool },
    /// One side failed while reading or writing.
    IoError { from_client: bool },
}

/// What the I/O loop must do before reporting the next event.
pub enum TunnelAction {
    /// Open the outbound TCP connection to the tunnel's target.
    OpenConnection,
    /// Write these bytes, in this order, to the named side.
    Write { to_client: bool, bytes: Vec<u8> },
    /// Close both streams.
    CloseBoth,
    /// Nothing to do.
    Idle,
}

/// A tunnel event as the specification sees it.
pub enum Ev {
    UpgradeOk,
    UpgradeFailed,
    ConnectOk,
    ConnectFailed,
    Data { from_client: bool, bytes: Seq<u8> },
    Eof { from_client: bool },
    IoError { from_client: bool },
}

/// A tunnel action as the specification sees it.
pub enum Act {
    OpenConnection,
    Write { to_client: bool, bytes: Seq<u8> },
    CloseBoth,
    Idle,
}

/// The abstract tunnel: its phase and the bytes handed to each side so far.
pub struct TunnelView {
    pub phase: Phase,
    /// Bytes delivered toward the origin, in order.
    pub to_origin: Seq<u8>,
    /// Bytes delivered back toward the client, in order.
    pub to_client: Seq<u8>,
}

impl View for TunnelEvent {
    type V = Ev;

    open spec fn view(&self) -> Ev {
        match self {
            TunnelEvent::UpgradeOk => Ev::UpgradeOk,
            TunnelEvent::UpgradeFailed => Ev::UpgradeFailed,
            TunnelEvent::ConnectOk => Ev::ConnectOk,
            TunnelEvent::ConnectFailed => Ev::ConnectFailed,
            TunnelEvent::Data { from_client, bytes } => (Ev::Data {
                from_client: *from_client,
                bytes: bytes@,
            }),
            TunnelEvent::Eof { from_client } => (Ev::Eof { from_client: *from_client }),
            TunnelEvent::IoError { from_client } => (Ev::IoError { from_client: *from_client }),
        }
    }
}

impl View for TunnelAction {
    type V = Act;

    open spec fn view(&self) -> Act {
        match self {
            TunnelAction::OpenConnection => Act::OpenConnection,
            TunnelAction::Write { to_client, bytes } => (Act::Write {
                to_client: *to_client,
                bytes: bytes@,
            }),
            TunnelAction::CloseBoth => Act::CloseBoth,
            TunnelAction::Idle => Act::Idle,
        }
    }
}

/// A fresh tunnel: nothing upgraded, nothing relayed.
pub open spec fn init_view() -> TunnelView {
    TunnelView { phase: Phase::AwaitingUpgrade, to_origin: Seq::empty(), to_client: Seq::empty() }
}

/// The next state and the required action when `ev` happens in state `s`.
/// Bytes are appended exactly as they arrived; any end of stream or failure
/// on either side closes both; a closed tunnel ignores everything; an event
/// the phase does not expect closes the tunnel defensively.
pub open spec fn spec_step(s: TunnelView, ev: Ev) -> (TunnelView, Act) {
    if s.phase == Phase::Closed {
        (s, Act::Idle)
    } else {
        match ev {
            Ev::UpgradeOk => if s.phase == Phase::AwaitingUpgrade {
                (TunnelView { phase: Phase::Connecting, ..s }, Act::OpenConnection)
            } else {
                (TunnelView { phase: Phase::Closed, ..s }, Act::CloseBoth)
            },
            Ev::UpgradeFailed => (TunnelView { phase: Phase::Closed, ..s }, Act::Idle),
            Ev::ConnectOk => if s.phase == Phase::Connecting {
                (TunnelView { phase: Phase::Relaying, ..s }, Act::Idle)
            } else {
                (TunnelView { phase: Phase::Closed, ..s }, Act::CloseBoth)
            },
            Ev::ConnectFailed => (TunnelView { phase: Phase::Closed, ..s }, Act::CloseBoth),
            Ev::Data { from_client, bytes } => if s.phase == Phase::Relaying {
                if from_client {
                    (
                        TunnelView { to_origin: s.to_origin + bytes, ..s },
                        Act::Write { to_client: false, bytes },
                    )
                } else {
                    (
                        TunnelView { to_client: s.to_client + bytes, ..s },
                        Act::Write { to_client: true, bytes },
                    )
                }
            } else {
                (TunnelView { phase: Phase::Closed, ..s }, Act::CloseBoth)
            },
            Ev::Eof { .. } => (TunnelView { phase: Phase::Closed, ..s }, Act::CloseBoth),
            Ev::IoError { .. } => (TunnelView { phase: Phase::Closed, ..s }, Act::CloseBoth),
        }
    }
}

/// The tunnel as the I/O loop drives it. The phase is live state; the bytes
/// relayed so far are ghost, visible only to the specification.
pub struct Tunnel {
    phase: Phase,
    relayed_to_origin: Ghost<Seq<u8>>,
    relayed_to_client: Ghost<Seq<u8>>,
}

impl View for Tunnel {
    type V = TunnelView;

    closed spec fn view(&self) -> TunnelView {
        TunnelView {
            phase: self.phase,
            to_origin: self.relayed_to_origin@,
            to_client: self.relayed_to_client@,
        }
    }
}

impl Tunnel {
    /// A fresh tunnel for one CONNECT request, created together with the 200
    /// acknowledgment and before any tunnel event can be processed.
    pub fn new() -> (t: Tunnel)
        ensures
            t@ == init_view(),
    {
        Tunnel {
            phase: Phase::AwaitingUpgrade,
            relayed_to_origin: Ghost(Seq::empty()),
            relayed_to_client: Ghost(Seq::empty()),
        }
    }

    /// The current phase, for the I/O loop's own bookkeeping.
    pub fn phase(&self) -> (p: Phase)
        ensures
            p == self@.phase,
    {
        self.phase
    }

    /// Feed one event and learn what to do next. The caller must perform the
    /// returned action before reporting another event.
    pub fn step(&mut self, ev: TunnelEvent) -> (act: TunnelAction)
        ensures
            final(self)@ == spec_step(old(self)@, ev@).0,
            act@ == spec_step(old(self)@, ev@).1,
    {
        if matches!(self.phase, Phase::Closed) {
            return TunnelAction::Idle;
        }
        match ev {
            TunnelEvent::UpgradeOk => {
                if matches!(self.phase, Phase::AwaitingUpgrade) {
                    self.phase = Phase::Connecting;
                    TunnelAction::OpenConnection
                } else {
                    self.phase = Phase::Closed;
                    TunnelAction::CloseBoth
                }
            },
            TunnelEvent::UpgradeFailed => {
                self.phase = Phase::Closed;
                TunnelAction::Idle
            },
            TunnelEvent::ConnectOk => {
                if matches!(self.phase, Phase::Connecting) {
                    self.phase = Phase::Relaying;
                    TunnelAction::Idle
                } else {
                    self.phase = Phase::Closed;
                    TunnelAction::CloseBoth
                }
            },
            TunnelEvent::ConnectFailed => {
                self.phase = Phase::Closed;
                TunnelAction::CloseBoth
            },
            TunnelEvent::Data { from_client, bytes } => {
                if matches!(self.phase, Phase::Relaying) {
                    if from_client {
                        self.relayed_to_origin = Ghost(self.relayed_to_origin@ + bytes@);
                        TunnelAction::Write { to_client: false, bytes }
                    } else {
                        self.relayed_to_client = Ghost(self.relayed_to_client@ + bytes@);
                        TunnelAction::Write { to_client: true, bytes }
                    }
                } else {
                    self.phase = Phase::Closed;
                    TunnelAction::CloseBoth
                }
            },
            TunnelEvent::Eof { .. } => {
                self.phase = Phase::Closed;
                TunnelAction::CloseBoth
            },
            TunnelEvent::IoError { .. } => {
                self.phase = Phase::Closed;
                TunnelAction::CloseBoth
            },
        }
    }
}

/// The abstract tunnel after a whole sequence of events, from a fresh start.
pub open spec fn spec_run(evs: Seq<Ev>) -> TunnelView
    decreases evs.len(),
{
    if evs.len() == 0 {
        init_view()
    } else {
        spec_step(spec_run(evs.drop_last()), evs.last()).0
    }
}

/// Of a sequence of events, the bytes carried by the data events of one
/// side, concatenated in arrival order.
pub open spec fn side_bytes(evs: Seq<Ev>, from_client: bool) -> Seq<u8>
    decreases evs.len(),
{
    if evs.len() == 0 {
        Seq::empty()
    } else {
        side_bytes(evs.drop_last(), from_client) + (match evs.last() {
            Ev::Data { from_client: f, bytes } => if f == from_client {
                bytes
            } else {
                Seq::<u8>::empty()
            },
            _ => Seq::<u8>::empty(),
        })
    }
}

/// Termination is final: once the tunnel is closed, no later event changes
/// its state, so no further byte is relayed in either direction.
pub proof fn lemma_closed_is_final(evs: Seq<Ev>, more: Seq<Ev>)
    requires
        spec_run(evs).phase == Phase::Closed,
    ensures
        spec_run(evs + more) == spec_run(evs),
    decreases more.len(),
{
    if more.len() == 0 {
        assert(evs + more =~= evs);
    } else {
        lemma_closed_is_final(evs, more.drop_last());
        assert((evs + more).drop_last() =~= evs + more.drop_last());
    }
}

/// When either side reaches end of stream or fails, one step closes both
/// streams, and that step itself relays nothing.
pub proof fn lemma_side_close_closes_both(s: TunnelView, ev: Ev)
    requires
        ev is Eof || ev is IoError,
    ensures
        spec_step(s, ev).0.phase == Phase::Closed,
        spec_step(s, ev).0.to_origin == s.to_origin,
        spec_step(s, ev).0.to_client == s.to_client,
        s.phase != Phase::Closed ==> spec_step(s, ev).1 == Act::CloseBoth,
        s.phase == Phase::Closed ==> spec_step(s, ev).1 == Act::Idle,
{
}

/// No byte moves before the client connection has been upgraded: a run that
/// contains no successful upgrade never reaches the relaying phase and
/// relays nothing. The 200 acknowledgment is produced when the tunnel is
/// created, so the client always holds it before the first relayed byte.
pub proof fn lemma_no_relay_before_upgrade(evs: Seq<Ev>)
    requires
        forall|i: int| 0 <= i < evs.len() ==> !(evs[i] is UpgradeOk),
    ensures
        spec_run(evs).phase == Phase::AwaitingUpgrade || spec_run(evs).phase == Phase::Closed,
        spec_run(evs).to_origin == Seq::<u8>::empty(),
        spec_run(evs).to_client == Seq::<u8>::empty(),
    decreases evs.len(),
{
    if evs.len() > 0 {
        assert(forall|i: int|
            0 <= i < evs.drop_last().len() ==> !(evs.drop_last()[i] is UpgradeOk));
        lemma_no_relay_before_upgrade(evs.drop_last());
        assert(!(evs.last() is UpgradeOk));
    }
}

/// The canonical life of a healthy tunnel: the upgrade and the outbound
/// connect succeed, then data flows.
pub open spec fn relaying_run(data: Seq<Ev>) -> Seq<Ev> {
    seq![Ev::UpgradeOk, Ev::ConnectOk] + data
}

/// Byte fidelity while relaying: after the upgrade and the connect succeed,
/// every byte each side sends is delivered to the other side — completely,
/// in arrival order, with nothing reordered, dropped or invented. The bytes
/// toward the origin are exactly the client's writes, and symmetrically.
pub proof fn lemma_relay_fidelity(data: Seq<Ev>)
    requires
        forall|i: int| 0 <= i < data.len() ==> data[i] is Data,
    ensures
        spec_run(relaying_run(data)).phase == Phase::Relaying,
        spec_run(relaying_run(data)).to_origin == side_bytes(data, true),
        spec_run(relaying_run(data)).to_client == side_bytes(data, false),
    decreases data.len(),
{
    if data.len() == 0 {
        reveal_with_fuel(spec_run, 4);
        let start = relaying_run(data);
        assert(start =~= seq![Ev::UpgradeOk, Ev::ConnectOk]);
        assert(start.drop_last() =~= seq![Ev::UpgradeOk]);
        assert(start.drop_last().drop_last() =~= Seq::<Ev>::empty());
    } else {
        assert(forall|i: int| 0 <= i < data.drop_last().len() ==> data.drop_last()[i] is Data);
        lemma_relay_fidelity(data.drop_last());
        assert(relaying_run(data).drop_last() =~= relaying_run(data.drop_last()));
        assert(relaying_run(data).last() == data.last());
    }
}

/// A healthy tunnel whose one side then closes: every byte sent before the
/// close is delivered — nothing is lost before an observed end of stream —
/// both streams are closed by that very step, and nothing moves afterwards.
pub proof fn lemma_relay_then_close(data: Seq<Ev>, closing: Ev, more: Seq<Ev>)
    requires
        forall|i: int| 0 <= i < data.len() ==> data[i] is Data,
        closing is Eof || closing is IoError,
    ensures
        spec_run(relaying_run(data).push(closing) + more).phase == Phase::Closed,
        spec_run(relaying_run(data).push(closing) + more).to_origin == side_bytes(data, true),
        spec_run(relaying_run(data).push(closing) + more).to_client == side_bytes(data, false),
{
    lemma_relay_fidelity(data);
    let upto = relaying_run(data).push(closing);
    assert(upto.drop_last() =~= relaying_run(data));
    lemma_side_close_closes_both(spec_run(relaying_run(data)), closing);
    lemma_closed_is_final(upto, more);
}

/// A CONNECT whose outbound connect fails: the tunnel closes at once and no
/// byte is ever relayed in either direction, whatever is reported later.
/// The client may already hold the 200 acknowledgment at that point: it is
/// produced before the connect is attempted, and the failure is only logged.
pub proof fn lemma_connect_failure_no_relay(more: Seq<Ev>)
    ensures
        spec_run(seq![Ev::UpgradeOk, Ev::ConnectFailed] + more).phase == Phase::Closed,
        spec_run(seq![Ev::UpgradeOk, Ev::ConnectFailed] + more).to_origin == Seq::<u8>::empty(),
        spec_run(seq![Ev::UpgradeOk, Ev::ConnectFailed] + more).to_client == Seq::<u8>::empty(),
{
    reveal_with_fuel(spec_run, 4);
    let start = seq![Ev::UpgradeOk, Ev::ConnectFailed];
    assert(start.drop_last() =~= seq![Ev::UpgradeOk]);
    assert(start.drop_last().drop_last() =~= Seq::<Ev>::empty());
    assert(spec_run(start).phase == Phase::Closed);
    assert(spec_run(start).to_origin =~= Seq::<u8>::empty());
    assert(spec_run(start).to_client =~= Seq::<u8>::empty());
    lemma_closed_is_final(start, more);
}

/// An interleaved schedule of two tunnels: each entry names the tunnel it
/// belongs to and the event it reports.
pub open spec fn own_events(sched: Seq<(bool, Ev)>, first: bool) -> Seq<Ev>
    decreases sched.len(),
{
    if sched.len() == 0 {
        Seq::empty()
    } else if sched.last().0 == first {
        own_events(sched.drop_last(), first).push(sched.last().1)
    } else {
        own_events(sched.drop_last(), first)
    }
}

/// Two tunnels driven under an interleaved schedule, each step applied to
/// the tunnel the entry names.
pub open spec fn spec_run_pair(sched: Seq<(bool, Ev)>) -> (TunnelView, TunnelView)
    decreases sched.len(),
{
    if sched.len() == 0 {
        (init_view(), init_view())
    } else {
        let prev = spec_run_pair(sched.drop_last());
        if sched.last().0 {
            (spec_step(prev.0, sched.last().1).0, prev.1)
        } else {
            (prev.0, spec_step(prev.1, sched.last().1).0)
        }
    }
}

/// Isolation: two tunnels driven in any interleaving behave exactly as each
/// would alone. The state of each — its phase and every relayed byte —
/// depends only on its own events, so bytes of one tunnel never appear on
/// the other's streams.
pub proof fn lemma_tunnel_isolation(sched: Seq<(bool, Ev)>)
    ensures
        spec_run_pair(sched).0 == spec_run(own_events(sched, true)),
        spec_run_pair(sched).1 == spec_run(own_events(sched, false)),
    decreases sched.len(),
{
    if sched.len() > 0 {
        lemma_tunnel_isolation(sched.drop_last());
        if sched.last().0 {
            assert(own_events(sched, false) =~= own_events(sched.drop_last(), false));
            assert(own_events(sched, true).drop_last() =~= own_events(sched.drop_last(), true));
        } else {
            assert(own_events(sched, true) =~= own_events(sched.drop_last(), true));
            assert(own_events(sched, false).drop_last() =~= own_events(sched.drop_last(), false));
        }
    }
}

} // verus!
