//! The event loop of the agent, as decisions: which listeners run, when a
//! status pass is due, and when the loop ends.
//!
//! The engine owns no task and no queue. It tells the caller which tasks to
//! start and to cancel, by the numbers it gives them, and the caller tells
//! it what came out of the event queue.

use crate::event::Event;
use crate::service::Outcome;
use vstd::prelude::*;

verus! {

/// How many events, and how many actions, may wait in their queue.
pub const QUEUE_CAPACITY: usize = 32;

/// Where a listener gets its signals from.
#[derive(Debug, Clone, Copy, PartialEq, Eq, Structural)]
pub enum SignalSource {
    /// The overall state of networking changed.
    NetworkState,
    /// A device appeared.
    DeviceAdded,
    /// A device went away.
    DeviceRemoved,
    /// The state of the primary connection changed.
    PrimaryConnection,
}

/// A signal as a listener receives it. The payload is `None` where it could
/// not be read.
#[derive(Debug, Clone, PartialEq, Eq)]
pub enum Signal {
    StateChanged(Option<u32>),
    DeviceAdded(Option<String>),
    DeviceRemoved(Option<String>),
    ConnectionStateChanged(Option<u32>),
}

impl Signal {
    /// Whether the payload of the signal could be read.
    pub open spec fn readable(&self) -> bool {
        match self {
            Signal::StateChanged(state) => state is Some,
            Signal::DeviceAdded(path) => path is Some,
            Signal::DeviceRemoved(path) => path is Some,
            Signal::ConnectionStateChanged(state) => state is Some,
        }
    }
}

/// What a listener does with a signal: whatever it says, the listener asks
/// for a fresh status pass. A listener that cannot read a signal ends
/// (`None`).
pub fn on_signal(signal: &Signal) -> (r: Option<Event>)
    ensures
        r == (if signal.readable() {
            Some(Event::Update)
        } else {
            None
        }),
{
    let readable = match signal {
        Signal::StateChanged(state) => state.is_some(),
        Signal::DeviceAdded(path) => path.is_some(),
        Signal::DeviceRemoved(path) => path.is_some(),
        Signal::ConnectionStateChanged(state) => state.is_some(),
    };
    if readable {
        Some(Event::Update)
    } else {
        None
    }
}

/// What the loop does when a status pass fails.
#[derive(Debug, Clone, Copy, PartialEq, Eq, Structural)]
pub enum FailurePolicy {
    /// The loop ends.
    Stop,
    /// The loop goes on, and the next `Update` brings the next pass.
    Retry,
}

/// What the caller is to do.
#[derive(Debug, Clone, Copy, PartialEq, Eq, Structural)]
pub enum Command {
    /// Start a listener on the source, under the given number.
    Spawn { id: u64, source: SignalSource },
    /// Cancel the listener with the given number.
    Cancel { id: u64 },
    /// Start the task that carries out the actions of the user, one after
    /// the other.
    StartDispatcher,
    /// Run a status pass, and report how it ended.
    Reconcile,
    /// Leave the event loop.
    Stop,
}

/// What comes into the loop.
#[derive(Debug, Clone, Copy, PartialEq, Eq, Structural)]
pub enum Input {
    /// An event from the queue.
    Event(Event),
    /// The end of the status pass that the engine asked for.
    PassFinished(Outcome),
}

/// The number of the first listener on the primary connection. The three
/// listeners that live as long as the loop have the numbers below it.
pub const FIRST_PRIMARY_LISTENER: u64 = 3;

/// The event loop.
#[derive(Debug, Clone, Copy, PartialEq, Eq)]
pub struct Engine {
    running: bool,
    primary: u64,
    policy: FailurePolicy,
}

pub struct EngineView {
    /// Whether the loop is still going.
    pub running: bool,
    /// The number of the listener on the primary connection.
    pub primary: u64,
    pub policy: FailurePolicy,
}

impl View for Engine {
    type V = EngineView;

    closed spec fn view(&self) -> EngineView {
        EngineView { running: self.running, primary: self.primary, policy: self.policy }
    }
}

/// The number for the listener that replaces the listener `id`.
pub open spec fn spec_next_listener(id: u64) -> u64 {
    if id == u64::MAX {
        FIRST_PRIMARY_LISTENER
    } else {
        (id + 1) as u64
    }
}

/// The loop as it begins, and the tasks to start with: one listener on each
/// source, and the dispatcher of actions.
pub open spec fn spec_start(policy: FailurePolicy) -> (EngineView, Seq<Command>) {
    (
        EngineView { running: true, primary: FIRST_PRIMARY_LISTENER, policy },
        Seq::empty().push(Command::Spawn { id: 0, source: SignalSource::NetworkState }).push(
            Command::Spawn { id: 1, source: SignalSource::DeviceAdded },
        ).push(Command::Spawn { id: 2, source: SignalSource::DeviceRemoved }).push(
            Command::Spawn { id: FIRST_PRIMARY_LISTENER, source: SignalSource::PrimaryConnection },
        ).push(Command::StartDispatcher),
    )
}

/// What an event brings. `Init` brings a pass. `Update` replaces the
/// listener on the primary connection, since that connection may be another
/// one by now, and brings a pass. `Shutdown` ends the loop. A loop that has
/// ended does nothing.
pub open spec fn spec_on_event(e: EngineView, event: Event) -> (EngineView, Seq<Command>) {
    if !e.running {
        (e, Seq::empty())
    } else {
        match event {
            Event::Init => (e, Seq::empty().push(Command::Reconcile)),
            Event::Update => (
                EngineView { primary: spec_next_listener(e.primary), ..e },
                Seq::empty().push(Command::Cancel { id: e.primary }).push(
                    Command::Spawn {
                        id: spec_next_listener(e.primary),
                        source: SignalSource::PrimaryConnection,
                    },
                ).push(Command::Reconcile),
            ),
            Event::Shutdown => (
                EngineView { running: false, ..e },
                Seq::empty().push(Command::Stop),
            ),
        }
    }
}

/// What the end of a pass brings: nothing, unless the pass failed and the
/// policy is to stop.
pub open spec fn spec_on_pass_finished(e: EngineView, outcome: Outcome) -> (
    EngineView,
    Seq<Command>,
) {
    if e.running && outcome is Failed && e.policy == FailurePolicy::Stop {
        (EngineView { running: false, ..e }, Seq::empty().push(Command::Stop))
    } else {
        (e, Seq::empty())
    }
}

/// What one input brings.
pub open spec fn spec_on_input(e: EngineView, input: Input) -> (EngineView, Seq<Command>) {
    match input {
        Input::Event(event) => spec_on_event(e, event),
        Input::PassFinished(outcome) => spec_on_pass_finished(e, outcome),
    }
}

/// The loop after a row of inputs, and every command on the way.
pub open spec fn spec_drive(e: EngineView, inputs: Seq<Input>) -> (EngineView, Seq<Command>)
    decreases inputs.len(),
{
    if inputs.len() == 0 {
        (e, Seq::empty())
    } else {
        let (before, commands) = spec_drive(e, inputs.drop_last());
        let (after, more) = spec_on_input(before, inputs.last());
        (after, commands + more)
    }
}

/// The listeners that run once the caller has done as told, given those
/// that ran before.
pub open spec fn listeners_after(running: Set<u64>, commands: Seq<Command>) -> Set<u64>
    decreases commands.len(),
{
    if commands.len() == 0 {
        running
    } else {
        let before = listeners_after(running, commands.drop_last());
        match commands.last() {
            Command::Spawn { id, .. } => before.insert(id),
            Command::Cancel { id } => before.remove(id),
            _ => before,
        }
    }
}

/// The listeners of a loop: the three that live as long as the loop, and
/// the one on the primary connection.
pub open spec fn listeners_of(e: EngineView) -> Set<u64> {
    Set::empty().insert(0).insert(1).insert(2).insert(e.primary)
}

/// A command at the end of a row does to the listeners what it says.
proof fn lemma_listeners_push()
    ensures
        forall|running: Set<u64>, commands: Seq<Command>, command: Command|
            #[trigger] listeners_after(running, commands.push(command)) == (match command {
                Command::Spawn { id, .. } => listeners_after(running, commands).insert(id),
                Command::Cancel { id } => listeners_after(running, commands).remove(id),
                _ => listeners_after(running, commands),
            }),
{
    assert forall|running: Set<u64>, commands: Seq<Command>, command: Command|
        #[trigger] listeners_after(running, commands.push(command)) == (match command {
            Command::Spawn { id, .. } => listeners_after(running, commands).insert(id),
            Command::Cancel { id } => listeners_after(running, commands).remove(id),
            _ => listeners_after(running, commands),
        }) by {
        assert(commands.push(command).drop_last() =~= commands);
    }
}

proof fn lemma_listeners_concat(running: Set<u64>, first: Seq<Command>, second: Seq<Command>)
    ensures
        listeners_after(running, first + second) == listeners_after(
            listeners_after(running, first),
            second,
        ),
    decreases second.len(),
{
    if second.len() == 0 {
        assert(first + second =~= first);
    } else {
        assert((first + second).drop_last() =~= first + second.drop_last());
        lemma_listeners_concat(running, first, second.drop_last());
    }
}

proof fn lemma_input_keeps_listeners(e: EngineView, input: Input)
    requires
        e.primary >= FIRST_PRIMARY_LISTENER,
    ensures
        spec_on_input(e, input).0.primary >= FIRST_PRIMARY_LISTENER,
        listeners_after(listeners_of(e), spec_on_input(e, input).1) == listeners_of(
            spec_on_input(e, input).0,
        ),
{
    lemma_listeners_push();
    let (after, commands) = spec_on_input(e, input);
    assert(listeners_after(listeners_of(e), commands) =~= listeners_of(after));
}

/// Whatever comes into the loop, in whatever order: once the caller has
/// done as told, exactly four listeners run, the three that live as long as
/// the loop and one on the primary connection, and that one is the listener
/// the engine last asked for.
pub proof fn law_one_listener_on_primary_connection(policy: FailurePolicy, inputs: Seq<Input>)
    ensures
        ({
            let (begun, first) = spec_start(policy);
            let (ended, later) = spec_drive(begun, inputs);
            &&& listeners_after(Set::empty(), first + later) == listeners_of(ended)
            &&& listeners_of(ended).len() == 4
            &&& ended.primary >= FIRST_PRIMARY_LISTENER
        }),
    decreases inputs.len(),
{
    lemma_listeners_push();
    let (begun, first) = spec_start(policy);
    let (ended, later) = spec_drive(begun, inputs);
    if inputs.len() == 0 {
        assert(first + later =~= first);
        assert(listeners_after(Set::empty(), first) =~= listeners_of(begun));
    } else {
        law_one_listener_on_primary_connection(policy, inputs.drop_last());
        let (before, commands) = spec_drive(begun, inputs.drop_last());
        let (after, more) = spec_on_input(before, inputs.last());
        lemma_input_keeps_listeners(before, inputs.last());
        assert(first + later =~= (first + commands) + more);
        lemma_listeners_concat(Set::empty(), first + commands, more);
    }
    assert(listeners_of(ended).len() == 4) by {
        let three = Set::<u64>::empty().insert(0).insert(1).insert(2);
        assert(three.len() == 3);
        assert(!three.contains(ended.primary));
    }
}

/// Every `Update` that reaches a running loop cancels the listener on the
/// primary connection once, starts one listener in its place under another
/// number, and brings a status pass.
pub proof fn law_update_replaces_primary_listener(e: EngineView)
    requires
        e.running,
        e.primary >= FIRST_PRIMARY_LISTENER,
    ensures
        spec_on_event(e, Event::Update).1 == seq![
            Command::Cancel { id: e.primary },
            Command::Spawn {
                id: spec_on_event(e, Event::Update).0.primary,
                source: SignalSource::PrimaryConnection,
            },
            Command::Reconcile,
        ],
        spec_on_event(e, Event::Update).0.primary != e.primary,
        spec_on_event(e, Event::Update).0.primary >= FIRST_PRIMARY_LISTENER,
{
    assert(spec_on_event(e, Event::Update).1 =~= seq![
        Command::Cancel { id: e.primary },
        Command::Spawn {
            id: spec_on_event(e, Event::Update).0.primary,
            source: SignalSource::PrimaryConnection,
        },
        Command::Reconcile,
    ]);
}

impl Engine {
    /// Begins the loop, and says which tasks to start.
    pub fn start(policy: FailurePolicy) -> (r: (Engine, Vec<Command>))
        ensures
            (r.0@, r.1@) == spec_start(policy),
    {
        let engine = Engine { running: true, primary: FIRST_PRIMARY_LISTENER, policy };
        let mut commands: Vec<Command> = Vec::new();
        commands.push(Command::Spawn { id: 0, source: SignalSource::NetworkState });
        commands.push(Command::Spawn { id: 1, source: SignalSource::DeviceAdded });
        commands.push(Command::Spawn { id: 2, source: SignalSource::DeviceRemoved });
        commands.push(
            Command::Spawn { id: FIRST_PRIMARY_LISTENER, source: SignalSource::PrimaryConnection },
        );
        commands.push(Command::StartDispatcher);
        assert(commands@ =~= spec_start(policy).1);
        (engine, commands)
    }

    /// Whether the loop is still going.
    pub fn is_running(&self) -> (r: bool)
        ensures
            r == self@.running,
    {
        self.running
    }

    /// The number of the listener on the primary connection.
    pub fn primary_listener(&self) -> (r: u64)
        ensures
            r == self@.primary,
    {
        self.primary
    }

    /// Takes an event from the queue, and says what to do.
    pub fn on_event(&mut self, event: Event) -> (r: Vec<Command>)
        ensures
            (final(self)@, r@) == spec_on_event(old(self)@, event),
    {
        let mut commands: Vec<Command> = Vec::new();
        if !self.running {
            assert(commands@ =~= Seq::empty());
            return commands;
        }
        match event {
            Event::Init => {
                commands.push(Command::Reconcile);
            },
            Event::Update => {
                let next: u64 = if self.primary == u64::MAX {
                    FIRST_PRIMARY_LISTENER
                } else {
                    self.primary + 1
                };
                commands.push(Command::Cancel { id: self.primary });
                commands.push(Command::Spawn { id: next, source: SignalSource::PrimaryConnection });
                commands.push(Command::Reconcile);
                self.primary = next;
            },
            Event::Shutdown => {
                commands.push(Command::Stop);
                self.running = false;
            },
        }
        assert(commands@ =~= spec_on_event(old(self)@, event).1);
        commands
    }

    /// Takes the end of a status pass, and says what to do.
    pub fn on_pass_finished(&mut self, outcome: Outcome) -> (r: Vec<Command>)
        ensures
            (final(self)@, r@) == spec_on_pass_finished(old(self)@, outcome),
    {
        let mut commands: Vec<Command> = Vec::new();
        let failed = match outcome {
            Outcome::Failed(_) => true,
            Outcome::Completed => false,
        };
        if self.running && failed && self.policy == FailurePolicy::Stop {
            commands.push(Command::Stop);
            self.running = false;
        }
        assert(commands@ =~= spec_on_pass_finished(old(self)@, outcome).1);
        commands
    }
}

} // verus!
