//! The supervisor of the node: which process is installed, under which
//! configuration, and how a restart replaces both as one unit.
//!
//! The supervisor never starts, stops or stores anything itself. It is
//! handed events and answers each with the one thing to do next; the host
//! does it and reports back. A restart runs through these steps:
//!
//! 1. the installed process is taken out and handed over to be killed;
//! 2. whatever the kill reports, the node is to be started with the
//!    arguments of the new configuration;
//! 3. if that fails, the restart ends unsuccessfully: there is then no
//!    process, and the installed configuration is still the old one;
//! 4. otherwise the new configuration is to be stored;
//! 5. whatever the store reports, the new process and the new configuration
//!    are installed together, and the restart ends successfully.
//!
//! While a restart is under way a second one is turned down at once; a host
//! that wants them queued holds its lock for the whole of a restart.

use vstd::prelude::*;
use vstd::multiset::Multiset;
use crate::config::{command_line, texts, ApeNodeArgs, ApeNodeArgsView};

verus! {

/// Where the supervisor stands. `H` is the host's handle on a process.
#[derive(Debug, PartialEq, Eq)]
pub enum Stage<H> {
    /// No restart is under way; the installed process, if there is one.
    Steady(Option<H>),
    /// The old process is being killed; the configuration to come.
    Stopping(ApeNodeArgs),
    /// The new process is being started; the configuration to come.
    Spawning(ApeNodeArgs),
    /// The new configuration is being stored; that configuration, and the
    /// process that runs under it.
    Saving(ApeNodeArgs, H),
}

/// What happened outside.
#[derive(Debug, PartialEq, Eq)]
pub enum Event<H> {
    /// A restart with this configuration was asked for.
    Restart(ApeNodeArgs),
    /// The kill was carried out; whether it succeeded.
    Killed(bool),
    /// The start was attempted; the new process, if there is one.
    Spawned(Option<H>),
    /// The store was attempted; whether it succeeded.
    Persisted(bool),
}

/// What the host is to do next.
#[derive(Debug, PartialEq, Eq)]
pub enum Command<H> {
    /// Kill this process, then report `Killed`.
    Kill(H),
    /// Start the node with these arguments and relay its output, then report
    /// `Spawned`.
    Spawn(Vec<String>),
    /// Store this configuration, then report `Persisted`.
    Persist(ApeNodeArgs),
    /// The restart is over; tell the caller whether it succeeded.
    Reply(bool),
    /// The event called for nothing.
    Nothing,
}

/// The supervisor's state: the installed configuration and the stage.
#[derive(Debug)]
pub struct SpawnApeNode<H> {
    args: ApeNodeArgs,
    stage: Stage<H>,
}

/// The mathematical value of a stage.
pub enum StageView<H> {
    Steady(Option<H>),
    Stopping(ApeNodeArgsView),
    Spawning(ApeNodeArgsView),
    Saving(ApeNodeArgsView, H),
}

/// The mathematical value of an event.
pub enum EventView<H> {
    Restart(ApeNodeArgsView),
    Killed(bool),
    Spawned(Option<H>),
    Persisted(bool),
}

/// The mathematical value of a command: arguments as texts.
pub enum CommandView<H> {
    Kill(H),
    Spawn(Seq<Seq<char>>),
    Persist(ApeNodeArgsView),
    Reply(bool),
    Nothing,
}

/// The mathematical value of the supervisor's state.
pub struct SupervisorView<H> {
    pub args: ApeNodeArgsView,
    pub stage: StageView<H>,
}

impl<H> View for Stage<H> {
    type V = StageView<H>;

    open spec fn view(&self) -> StageView<H> {
        match *self {
            Stage::Steady(child) => StageView::Steady(child),
            Stage::Stopping(pending) => StageView::Stopping(pending@),
            Stage::Spawning(pending) => StageView::Spawning(pending@),
            Stage::Saving(pending, fresh) => StageView::Saving(pending@, fresh),
        }
    }
}

impl<H> View for Event<H> {
    type V = EventView<H>;

    open spec fn view(&self) -> EventView<H> {
        match *self {
            Event::Restart(config) => EventView::Restart(config@),
            Event::Killed(done) => EventView::Killed(done),
            Event::Spawned(fresh) => EventView::Spawned(fresh),
            Event::Persisted(done) => EventView::Persisted(done),
        }
    }
}

impl<H> View for Command<H> {
    type V = CommandView<H>;

    open spec fn view(&self) -> CommandView<H> {
        match *self {
            Command::Kill(child) => CommandView::Kill(child),
            Command::Spawn(args) => CommandView::Spawn(texts(args@)),
            Command::Persist(config) => CommandView::Persist(config@),
            Command::Reply(done) => CommandView::Reply(done),
            Command::Nothing => CommandView::Nothing,
        }
    }
}

impl<H> View for SpawnApeNode<H> {
    type V = SupervisorView<H>;

    closed spec fn view(&self) -> SupervisorView<H> {
        SupervisorView { args: self.args@, stage: self.stage@ }
    }
}

/// The supervisor's rule: the state after an event, and the command that
/// answers it.
pub open spec fn next<H>(s: SupervisorView<H>, e: EventView<H>) -> (
    SupervisorView<H>,
    CommandView<H>,
) {
    match (s.stage, e) {
        (StageView::Steady(Some(child)), EventView::Restart(config)) => (
            SupervisorView { args: s.args, stage: StageView::Stopping(config) },
            CommandView::Kill(child),
        ),
        (StageView::Steady(None), EventView::Restart(config)) => (
            SupervisorView { args: s.args, stage: StageView::Spawning(config) },
            CommandView::Spawn(command_line(config)),
        ),
        (StageView::Stopping(config), EventView::Killed(_)) => (
            SupervisorView { args: s.args, stage: StageView::Spawning(config) },
            CommandView::Spawn(command_line(config)),
        ),
        (StageView::Spawning(config), EventView::Spawned(Some(fresh))) => (
            SupervisorView { args: s.args, stage: StageView::Saving(config, fresh) },
            CommandView::Persist(config),
        ),
        (StageView::Spawning(_), EventView::Spawned(None)) => (
            SupervisorView { args: s.args, stage: StageView::Steady(None) },
            CommandView::Reply(false),
        ),
        (StageView::Saving(config, fresh), EventView::Persisted(_)) => (
            SupervisorView { args: config, stage: StageView::Steady(Some(fresh)) },
            CommandView::Reply(true),
        ),
        (_, EventView::Restart(_)) => (s, CommandView::Reply(false)),
        (_, EventView::Spawned(Some(stray))) => (s, CommandView::Kill(stray)),
        _ => (s, CommandView::Nothing),
    }
}

impl<H> SpawnApeNode<H> {
    /// The supervisor of a node that has just been started under `args`.
    pub fn new(args: ApeNodeArgs, child: H) -> (state: SpawnApeNode<H>)
        ensures
            state@ == (SupervisorView { args: args@, stage: StageView::Steady(Some(child)) }),
    {
        SpawnApeNode { args, stage: Stage::Steady(Some(child)) }
    }

    /// The stage that the supervisor is in.
    pub fn stage(&self) -> (stage: &Stage<H>)
        ensures
            stage@ == self@.stage,
    {
        &self.stage
    }

    /// Whether a process is installed and no restart is under way.
    pub fn is_running(&self) -> (running: bool)
        ensures
            running == (self@.stage matches StageView::Steady(Some(_))),
    {
        match &self.stage {
            Stage::Steady(Some(_)) => true,
            _ => false,
        }
    }

    /// Takes in an event and says what to do next.
    pub fn step(&mut self, event: Event<H>) -> (command: Command<H>)
        ensures
            (final(self)@, command@) == next(old(self)@, event@),
    {
        let mut stage: Stage<H> = Stage::Steady(None);
        core::mem::swap(&mut self.stage, &mut stage);
        match (stage, event) {
            (Stage::Steady(Some(child)), Event::Restart(config)) => {
                self.stage = Stage::Stopping(config);
                Command::Kill(child)
            },
            (Stage::Steady(None), Event::Restart(config)) => {
                let args = config.to_args();
                self.stage = Stage::Spawning(config);
                Command::Spawn(args)
            },
            (Stage::Stopping(config), Event::Killed(_)) => {
                let args = config.to_args();
                self.stage = Stage::Spawning(config);
                Command::Spawn(args)
            },
            (Stage::Spawning(config), Event::Spawned(Some(fresh))) => {
                let stored = config.clone();
                self.stage = Stage::Saving(config, fresh);
                Command::Persist(stored)
            },
            (Stage::Spawning(_), Event::Spawned(None)) => {
                self.stage = Stage::Steady(None);
                Command::Reply(false)
            },
            (Stage::Saving(config, fresh), Event::Persisted(_)) => {
                self.args = config;
                self.stage = Stage::Steady(Some(fresh));
                Command::Reply(true)
            },
            (held, Event::Restart(_)) => {
                self.stage = held;
                Command::Reply(false)
            },
            (held, Event::Spawned(Some(stray))) => {
                self.stage = held;
                Command::Kill(stray)
            },
            (held, _) => {
                self.stage = held;
                Command::Nothing
            },
        }
    }
}

/// Begins a restart of the node under a new configuration.
pub fn restart_mfer_node<H>(state: &mut SpawnApeNode<H>, mfer_node_args: ApeNodeArgs) -> (command:
    Command<H>)
    ensures
        (final(state)@, command@) == next(old(state)@, EventView::Restart(mfer_node_args@)),
{
    state.step(Event::Restart(mfer_node_args))
}

/// A copy of the installed configuration.
pub fn get_mfer_node_args<H>(state: &SpawnApeNode<H>) -> (args: ApeNodeArgs)
    ensures
        args@ == state@.args,
{
    state.args.clone()
}

/// The process handles that a stage holds.
pub open spec fn stage_handles<H>(stage: StageView<H>) -> Multiset<H> {
    match stage {
        StageView::Steady(Some(child)) => Multiset::singleton(child),
        StageView::Saving(_, fresh) => Multiset::singleton(fresh),
        _ => Multiset::empty(),
    }
}

/// The process handles that an event brings in.
pub open spec fn event_handles<H>(e: EventView<H>) -> Multiset<H> {
    match e {
        EventView::Spawned(Some(fresh)) => Multiset::singleton(fresh),
        _ => Multiset::empty(),
    }
}

/// The process handles that a command hands out to be killed.
pub open spec fn command_handles<H>(c: CommandView<H>) -> Multiset<H> {
    match c {
        CommandView::Kill(child) => Multiset::singleton(child),
        _ => Multiset::empty(),
    }
}

/// The state in which a complete restart leaves a supervisor that had a
/// process installed: the events are the request, the report of the kill,
/// the report of the start and the report of the store.
pub open spec fn restarted<H>(
    s: SupervisorView<H>,
    config: ApeNodeArgsView,
    killed: bool,
    fresh: Option<H>,
    persisted: bool,
) -> SupervisorView<H> {
    let stopping = next(s, EventView::Restart(config)).0;
    let spawning = next(stopping, EventView::Killed(killed)).0;
    let saving = next(spawning, EventView::Spawned(fresh)).0;
    if fresh is Some {
        next(saving, EventView::Persisted(persisted)).0
    } else {
        saving
    }
}

/// A restart of a running node goes through kill, start and store, in that
/// order, and ends with the new process and the new configuration installed
/// together. Neither a failed kill nor a failed store changes that.
pub proof fn restart_installs_process_and_configuration<H>(
    s: SupervisorView<H>,
    old_child: H,
    config: ApeNodeArgsView,
    killed: bool,
    fresh: H,
    persisted: bool,
)
    requires
        s.stage == StageView::Steady(Some(old_child)),
    ensures
        ({
            let a = next(s, EventView::Restart(config));
            let b = next(a.0, EventView::Killed(killed));
            let c = next(b.0, EventView::Spawned(Some(fresh)));
            let d = next(c.0, EventView::Persisted(persisted));
            &&& a.1 == CommandView::Kill(old_child)
            &&& a.0.args == s.args
            &&& b.1 == CommandView::<H>::Spawn(command_line(config))
            &&& b.0.args == s.args
            &&& c.1 == CommandView::<H>::Persist(config)
            &&& c.0.args == s.args
            &&& d.1 == CommandView::<H>::Reply(true)
            &&& d.0 == (SupervisorView { args: config, stage: StageView::Steady(Some(fresh)) })
        }),
        restarted(s, config, killed, Some(fresh), persisted) == (SupervisorView {
            args: config,
            stage: StageView::Steady(Some(fresh)),
        }),
{
}

/// A restart whose start fails ends unsuccessfully: no process is left, the
/// installed configuration is the old one, and the next restart begins with
/// the start, there being nothing to kill.
pub proof fn failed_start_keeps_configuration<H>(
    s: SupervisorView<H>,
    old_child: H,
    config: ApeNodeArgsView,
    killed: bool,
    later: ApeNodeArgsView,
)
    requires
        s.stage == StageView::Steady(Some(old_child)),
    ensures
        ({
            let a = next(s, EventView::Restart(config));
            let b = next(a.0, EventView::Killed(killed));
            let c = next(b.0, EventView::Spawned(None));
            &&& c.1 == CommandView::<H>::Reply(false)
            &&& c.0 == (SupervisorView { args: s.args, stage: StageView::<H>::Steady(None) })
            &&& next(c.0, EventView::Restart(later)).1 == CommandView::<H>::Spawn(
                command_line(later),
            )
        }),
        restarted(s, config, killed, None, true) == (SupervisorView {
            args: s.args,
            stage: StageView::<H>::Steady(None),
        }),
{
}

/// Two restarts, one after the other, leave the second configuration
/// installed and the second new process as the only one held; the process
/// that ran at first and the one that ran in between were both handed over
/// to be killed.
pub proof fn second_restart_wins<H>(
    s: SupervisorView<H>,
    first_child: H,
    second_config: ApeNodeArgsView,
    second_killed: bool,
    second_child: H,
    second_persisted: bool,
    third_config: ApeNodeArgsView,
    third_killed: bool,
    third_child: H,
    third_persisted: bool,
)
    requires
        s.stage == StageView::Steady(Some(first_child)),
    ensures
        ({
            let between = restarted(
                s,
                second_config,
                second_killed,
                Some(second_child),
                second_persisted,
            );
            let end = restarted(
                between,
                third_config,
                third_killed,
                Some(third_child),
                third_persisted,
            );
            &&& next(s, EventView::Restart(second_config)).1 == CommandView::Kill(first_child)
            &&& next(between, EventView::Restart(third_config)).1 == CommandView::Kill(
                second_child,
            )
            &&& end == (SupervisorView {
                args: third_config,
                stage: StageView::Steady(Some(third_child)),
            })
            &&& stage_handles(end.stage) == Multiset::singleton(third_child)
        }),
{
    restart_installs_process_and_configuration(
        s,
        first_child,
        second_config,
        second_killed,
        second_child,
        second_persisted,
    );
    let between = restarted(s, second_config, second_killed, Some(second_child), second_persisted);
    restart_installs_process_and_configuration(
        between,
        second_child,
        third_config,
        third_killed,
        third_child,
        third_persisted,
    );
}

/// The installed configuration changes in one step only: the one that ends
/// a restart successfully, which installs the new process with it. At every
/// other step it stays as it is.
pub proof fn configuration_changes_only_with_process<H>(s: SupervisorView<H>, e: EventView<H>)
    ensures
        ({
            let (t, command) = next(s, e);
            ||| t.args == s.args
            ||| {
                &&& s.stage matches StageView::Saving(config, fresh)
                &&& e is Persisted
                &&& command == CommandView::<H>::Reply(true)
                &&& t == (SupervisorView { args: config, stage: StageView::Steady(Some(fresh)) })
            }
        }),
{
}

/// No step loses a process: every handle that the supervisor held before
/// the step, or that the event brought in, is either held after it or
/// handed out to be killed, and nothing else is. The supervisor holds at
/// most one handle at any time.
pub proof fn no_process_is_dropped<H>(s: SupervisorView<H>, e: EventView<H>)
    ensures
        ({
            let (t, command) = next(s, e);
            stage_handles(s.stage).add(event_handles(e)) == stage_handles(t.stage).add(
                command_handles(command),
            )
        }),
        stage_handles(s.stage).len() <= 1,
{
    let (t, command) = next(s, e);
    assert(stage_handles(s.stage).add(event_handles(e)) =~= stage_handles(t.stage).add(
        command_handles(command),
    ));
}

} // verus!
