use vstd::prelude::*;

verus! {

/// Delay, in milliseconds, before reconnecting after a failed attempt or a
/// lost link.
pub const RETRY_DELAY_MS: u64 = 5000;

/// Where the Wi-Fi association stands.
#[derive(Clone, Copy, Debug, PartialEq, Eq, Structural)]
pub enum LinkState {
    Disconnected,
    Connecting,
    Connected,
}

/// What the radio side reports to the supervisor.
#[derive(Clone, Copy, Debug, PartialEq, Eq, Structural)]
pub enum NetEvent {
    /// The supervisor runs for the first time; `radio_started` says whether
    /// the radio is up already.
    Started { radio_started: bool },
    /// The association attempt succeeded.
    ConnectSucceeded,
    /// The association attempt failed.
    ConnectFailed,
    /// The radio reported that the link went down.
    LinkLost,
    /// The requested delay is over; `radio_started` as for `Started`.
    DelayElapsed { radio_started: bool },
}

/// What the supervisor asks the radio side to do next.
#[derive(Clone, Copy, Debug, PartialEq, Eq, Structural)]
pub enum NetAction {
    /// Attempt to associate, configuring the client credentials and starting
    /// the radio first when `start_radio` holds.
    Connect { start_radio: bool },
    /// Wait, without polling, for the radio to report that the link is down.
    AwaitDisconnect,
    /// Sleep for `ms` milliseconds.
    Wait { ms: u64 },
}

/// The supervisor's answer to `e`, and the link state it then stands in.
pub open spec fn reaction(e: NetEvent) -> (LinkState, NetAction) {
    match e {
        NetEvent::Started { radio_started } => (
            LinkState::Connecting,
            NetAction::Connect { start_radio: !radio_started },
        ),
        NetEvent::DelayElapsed { radio_started } => (
            LinkState::Connecting,
            NetAction::Connect { start_radio: !radio_started },
        ),
        NetEvent::ConnectSucceeded => (LinkState::Connected, NetAction::AwaitDisconnect),
        NetEvent::ConnectFailed => (
            LinkState::Disconnected,
            NetAction::Wait { ms: RETRY_DELAY_MS },
        ),
        NetEvent::LinkLost => (LinkState::Disconnected, NetAction::Wait { ms: RETRY_DELAY_MS }),
    }
}

/// Owns the association lifecycle: connect, wait for the link to drop,
/// retry after a fixed delay, forever.
#[derive(Clone, Copy, Debug)]
pub struct Supervisor {
    state: LinkState,
}

impl Supervisor {
    /// The link state.
    pub closed spec fn link(&self) -> LinkState {
        self.state
    }

    /// A supervisor that has not tried anything yet.
    pub fn new() -> (r: Self)
        ensures
            r.link() == LinkState::Disconnected,
    {
        Supervisor { state: LinkState::Disconnected }
    }

    /// The link state.
    pub fn link_state(&self) -> (r: LinkState)
        ensures
            r == self.link(),
    {
        self.state
    }

    /// Whether the link is up.
    pub fn is_link_up(&self) -> (r: bool)
        ensures
            r == (self.link() == LinkState::Connected),
    {
        match self.state {
            LinkState::Connected => true,
            _ => false,
        }
    }

    /// Takes one event and says what to do next. Every event is answered
    /// with an action: the supervisor never stops.
    pub fn step(&mut self, event: NetEvent) -> (r: NetAction)
        ensures
            (final(self).link(), r) == reaction(event),
    {
        let (state, action) = match event {
            NetEvent::Started { radio_started } => (
                LinkState::Connecting,
                NetAction::Connect { start_radio: !radio_started },
            ),
            NetEvent::DelayElapsed { radio_started } => (
                LinkState::Connecting,
                NetAction::Connect { start_radio: !radio_started },
            ),
            NetEvent::ConnectSucceeded => (LinkState::Connected, NetAction::AwaitDisconnect),
            NetEvent::ConnectFailed => (
                LinkState::Disconnected,
                NetAction::Wait { ms: RETRY_DELAY_MS },
            ),
            NetEvent::LinkLost => (
                LinkState::Disconnected,
                NetAction::Wait { ms: RETRY_DELAY_MS },
            ),
        };
        self.state = state;
        action
    }
}

/// The actions answered, in order, to `events`.
pub open spec fn actions_for(events: Seq<NetEvent>) -> Seq<NetAction> {
    events.map_values(|e: NetEvent| reaction(e).1)
}

/// The events of a first start followed by `n` failed attempts, each
/// failure followed by the end of the retry delay.
pub open spec fn failing_run(radio_started: bool, n: nat) -> Seq<NetEvent>
    decreases n,
{
    if n == 0 {
        seq![NetEvent::Started { radio_started }]
    } else {
        failing_run(radio_started, (n - 1) as nat) + seq![
            NetEvent::ConnectFailed,
            NetEvent::DelayElapsed { radio_started: true },
        ]
    }
}

/// How many association attempts `actions` holds.
pub open spec fn attempts(actions: Seq<NetAction>) -> nat
    decreases actions.len(),
{
    if actions.len() == 0 {
        0
    } else {
        attempts(actions.drop_last()) + if actions.last() is Connect {
            1nat
        } else {
            0nat
        }
    }
}

/// After `n` consecutive failed attempts the supervisor has made exactly
/// `n + 1` attempts, each failure followed by a wait of the fixed retry
/// delay and then the next attempt; it answers every event, so it never
/// gives up.
pub proof fn lemma_retry_forever(radio_started: bool, n: nat)
    ensures
        actions_for(failing_run(radio_started, n)).len() == failing_run(radio_started, n).len(),
        failing_run(radio_started, n).len() == 2 * n + 1,
        attempts(actions_for(failing_run(radio_started, n))) == n + 1,
        actions_for(failing_run(radio_started, n))[0] == (NetAction::Connect {
            start_radio: !radio_started,
        }),
        forall|i: int|
            0 <= i < n ==> #[trigger] actions_for(failing_run(radio_started, n))[2 * i + 1]
                == (NetAction::Wait { ms: RETRY_DELAY_MS }) && actions_for(
                failing_run(radio_started, n),
            )[2 * i + 2] == (NetAction::Connect { start_radio: false }),
    decreases n,
{
    let ev = failing_run(radio_started, n);
    let acts = actions_for(ev);
    if n > 0 {
        let prev = failing_run(radio_started, (n - 1) as nat);
        lemma_retry_forever(radio_started, (n - 1) as nat);
        let pacts = actions_for(prev);
        assert(acts =~= pacts + seq![
            NetAction::Wait { ms: RETRY_DELAY_MS },
            NetAction::Connect { start_radio: false },
        ]);
        assert(acts.drop_last() =~= pacts + seq![NetAction::Wait { ms: RETRY_DELAY_MS }]);
        assert(acts.drop_last().drop_last() =~= pacts);
        assert(attempts(acts.drop_last()) == attempts(pacts));
        assert(attempts(acts) == attempts(pacts) + 1);
        assert forall|i: int| 0 <= i < n implies #[trigger] acts[2 * i + 1] == (NetAction::Wait {
            ms: RETRY_DELAY_MS,
        }) && acts[2 * i + 2] == (NetAction::Connect { start_radio: false }) by {
            if i < n - 1 {
                assert(pacts[2 * i + 1] == (NetAction::Wait { ms: RETRY_DELAY_MS }));
            }
        }
    } else {
        assert(acts.len() == 1);
        assert(acts.last() == (NetAction::Connect { start_radio: !radio_started }));
        assert(acts.drop_last() =~= Seq::<NetAction>::empty());
        assert(attempts(acts.drop_last()) == 0);
    }
}

} // verus!
