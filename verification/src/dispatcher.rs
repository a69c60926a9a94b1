//! The one-shot setup that leads from process start to the running fan-out.
//!
//! The dispatcher performs no I/O. It is told what happened as an `Event` and
//! answers with the `Action`s to carry out next; the caller performs them and
//! reports back. Every failure it is told of ends the run.

use crate::config::Config;
use crate::error::DispatchError;
use crate::naming::CHANNEL_NAME_LEN;
use crate::plan::{plan_creation, spec_batches, spec_remainder, CHANNEL_AMOUNT, MAX_CHANNELS};
use vstd::prelude::*;

verus! {

/// The kind of a channel, as far as the fan-out cares.
#[derive(Clone, Copy, Debug, PartialEq, Eq, Structural)]
pub enum ChannelKind {
    /// A text channel of a server.
    Text,
    /// Anything else: voice, category, private conversation.
    Other,
}

/// A line for the console.
#[derive(Clone, Copy, Debug, PartialEq, Eq, Structural)]
pub enum Notice {
    Connected,
    CreatingChannels,
    CeilingExceeded,
    DoneCreating,
    Pinging,
}

impl Notice {
    /// The line that is printed for this notice.
    pub open spec fn line(self) -> Seq<char> {
        match self {
            Notice::Connected => "is connected!"@,
            Notice::CreatingChannels => "Creating channels..."@,
            Notice::CeilingExceeded => "Cannot create more than 500 channels"@,
            Notice::DoneCreating => "Done creating channels!"@,
            Notice::Pinging => "Pinging..."@,
        }
    }

    /// The line to print for this notice.
    pub fn text(&self) -> (t: &'static str)
        ensures
            t@ == self.line(),
    {
        match self {
            Notice::Connected => "is connected!",
            Notice::CreatingChannels => "Creating channels...",
            Notice::CeilingExceeded => "Cannot create more than 500 channels",
            Notice::DoneCreating => "Done creating channels!",
            Notice::Pinging => "Pinging...",
        }
    }
}

/// How far the setup has come.
#[derive(Clone, Copy, Debug, PartialEq, Eq, Structural)]
pub enum Phase {
    /// The configuration is being read for the credential.
    Booting,
    /// The gateway connection is being opened.
    Connecting,
    /// The session is ready and the configuration is being read again.
    LoadingConfig,
    /// Channels are being created.
    Creating,
    /// The server's channels are being listed.
    Listing,
    /// The kind of each listed channel is being looked up, one at a time.
    Resolving,
    /// All senders are started and are being waited for.
    Running,
    /// Every sender ended without failure.
    Finished,
    /// The run was aborted.
    Failed(DispatchError),
}

/// What the caller reports to the dispatcher.
#[derive(Debug)]
pub enum Event {
    /// The configuration was read and parsed.
    ConfigLoaded(Config),
    /// The configuration is missing or malformed.
    ConfigFailed,
    /// The gateway session became usable.
    Ready,
    /// The gateway connection failed.
    ConnectionFailed,
    /// The creations that run on the calling task are all done.
    RemainderCreated,
    /// A channel could not be created.
    CreationFailed,
    /// The server's channels, in the order they were listed.
    ChannelsListed(Vec<u64>),
    /// The channels could not be listed.
    ListingFailed,
    /// The kind of the channel that was asked about.
    KindResolved(ChannelKind),
    /// The kind of a channel could not be looked up.
    ResolveFailed,
    /// A sender ended because a message was refused.
    TaskFailed,
    /// Every sender ended without failure.
    TasksJoined,
}

/// What the dispatcher asks the caller to do.
#[derive(Debug, PartialEq, Eq)]
pub enum Action {
    /// Open the gateway connection with this credential.
    Connect { token: String },
    /// Print a line.
    Notify(Notice),
    /// Read the configuration and report it.
    LoadConfig,
    /// Start `batches` concurrent workers of `BATCH_SIZE` creations each, then
    /// run `remainder` creations on the calling task and report when those
    /// are done. The batches are not waited for.
    CreateChannels { guild_id: u64, batches: usize, remainder: usize, name_len: usize },
    /// List the channels of the server.
    ListChannels { guild_id: u64 },
    /// Look up the kind of a channel.
    ResolveKind { channel_id: u64 },
    /// Start the repeating sender of a channel. Asked for only after every
    /// listed channel has been looked up.
    StartTask { channel_id: u64, ping_id: u64 },
    /// Wait for every started sender.
    JoinTasks,
    /// End the process with this failure.
    Abort(DispatchError),
}

/// Mathematical content of a `Dispatcher`.
pub struct DispatcherState {
    pub phase: Phase,
    /// Number of channels to create when creation is switched on.
    pub channel_amount: usize,
    /// Length of each generated channel name.
    pub name_len: usize,
    pub guild_id: u64,
    pub ping_id: u64,
    /// The listed channels.
    pub pending: Seq<u64>,
    /// Index in `pending` of the channel whose kind is being looked up.
    pub cursor: nat,
    /// The text channels found so far, in listing order. Their senders are
    /// started together, after the last lookup.
    pub tasks: Seq<u64>,
}

/// The state at process start.
pub open spec fn initial(channel_amount: usize, name_len: usize) -> DispatcherState {
    DispatcherState {
        phase: Phase::Booting,
        channel_amount,
        name_len,
        guild_id: 0,
        ping_id: 0,
        pending: Seq::empty(),
        cursor: 0,
        tasks: Seq::empty(),
    }
}

/// Whether the run is over.
pub open spec fn is_terminal(phase: Phase) -> bool {
    phase is Finished || phase is Failed
}

/// Whether carrying out `a` touches the network.
pub open spec fn is_network(a: Action) -> bool {
    a is Connect || a is CreateChannels || a is ListChannels || a is ResolveKind || a is StartTask
}

/// Aborting with `error`.
pub open spec fn fail(s: DispatcherState, error: DispatchError) -> (DispatcherState, Seq<Action>) {
    (DispatcherState { phase: Phase::Failed(error), ..s }, seq![Action::Abort(error)])
}

/// The step taken when the configuration arrives after the ready signal.
pub open spec fn on_config(s: DispatcherState, config: Config) -> (DispatcherState, Seq<Action>) {
    let t = DispatcherState { guild_id: config.guild_id, ping_id: config.ping_id, ..s };
    let list = Action::ListChannels { guild_id: config.guild_id };
    if !config.create_channel {
        (DispatcherState { phase: Phase::Listing, ..t }, seq![list])
    } else if s.channel_amount > MAX_CHANNELS {
        (
            DispatcherState { phase: Phase::Listing, ..t },
            seq![
                Action::Notify(Notice::CreatingChannels),
                Action::Notify(Notice::CeilingExceeded),
                list,
            ],
        )
    } else {
        (
            DispatcherState { phase: Phase::Creating, ..t },
            seq![
                Action::Notify(Notice::CreatingChannels),
                Action::CreateChannels {
                    guild_id: config.guild_id,
                    batches: spec_batches(s.channel_amount as nat) as usize,
                    remainder: spec_remainder(s.channel_amount as nat) as usize,
                    name_len: s.name_len,
                },
            ],
        )
    }
}

/// The step taken when the channel list arrives.
pub open spec fn on_listed(s: DispatcherState, ids: Seq<u64>) -> (DispatcherState, Seq<Action>) {
    let t = DispatcherState { pending: ids, cursor: 0, tasks: Seq::empty(), ..s };
    if ids.len() == 0 {
        (
            DispatcherState { phase: Phase::Running, ..t },
            seq![Action::Notify(Notice::Pinging), Action::JoinTasks],
        )
    } else {
        (
            DispatcherState { phase: Phase::Resolving, ..t },
            seq![Action::Notify(Notice::Pinging), Action::ResolveKind { channel_id: ids[0] }],
        )
    }
}

/// The actions that start the sender of each of `channels`, in order.
pub open spec fn start_all(channels: Seq<u64>, ping_id: u64) -> Seq<Action> {
    Seq::new(channels.len(), |i: int| Action::StartTask { channel_id: channels[i], ping_id })
}

/// The step taken when the kind of the channel under the cursor arrives. A
/// text channel is retained. While channels are left the next one is looked
/// up and no sender is started; after the last one the sender of every
/// retained channel is started, in listing order, and the senders are waited
/// for. The fan-out so begins only when the whole setup has succeeded.
pub open spec fn on_kind(s: DispatcherState, kind: ChannelKind) -> (DispatcherState, Seq<Action>) {
    if s.cursor < s.pending.len() {
        let tasks = if kind == ChannelKind::Text {
            s.tasks.push(s.pending[s.cursor as int])
        } else {
            s.tasks
        };
        let cursor = s.cursor + 1;
        if cursor < s.pending.len() {
            (
                DispatcherState { cursor, tasks, ..s },
                seq![Action::ResolveKind { channel_id: s.pending[cursor as int] }],
            )
        } else {
            (
                DispatcherState { phase: Phase::Running, cursor, tasks, ..s },
                start_all(tasks, s.ping_id).push(Action::JoinTasks),
            )
        }
    } else {
        (
            DispatcherState { phase: Phase::Running, ..s },
            start_all(s.tasks, s.ping_id).push(Action::JoinTasks),
        )
    }
}

/// The transition function: the state and the actions that follow `s` on
/// `event`. An event that the phase does not expect changes nothing.
pub open spec fn step_spec(s: DispatcherState, event: Event) -> (DispatcherState, Seq<Action>) {
    match s.phase {
        Phase::Booting => match event {
            Event::ConfigLoaded(config) => (
                DispatcherState { phase: Phase::Connecting, ..s },
                seq![Action::Connect { token: config.token }],
            ),
            Event::ConfigFailed => fail(s, DispatchError::Config),
            _ => (s, Seq::empty()),
        },
        Phase::Connecting => match event {
            Event::Ready => (
                DispatcherState { phase: Phase::LoadingConfig, ..s },
                seq![Action::Notify(Notice::Connected), Action::LoadConfig],
            ),
            Event::ConnectionFailed => fail(s, DispatchError::Connection),
            _ => (s, Seq::empty()),
        },
        Phase::LoadingConfig => match event {
            Event::ConfigLoaded(config) => on_config(s, config),
            Event::ConfigFailed => fail(s, DispatchError::Config),
            Event::ConnectionFailed => fail(s, DispatchError::Connection),
            _ => (s, Seq::empty()),
        },
        Phase::Creating => match event {
            Event::RemainderCreated => (
                DispatcherState { phase: Phase::Listing, ..s },
                seq![
                    Action::Notify(Notice::DoneCreating),
                    Action::ListChannels { guild_id: s.guild_id },
                ],
            ),
            Event::CreationFailed => fail(s, DispatchError::Creation),
            Event::ConnectionFailed => fail(s, DispatchError::Connection),
            _ => (s, Seq::empty()),
        },
        Phase::Listing => match event {
            Event::ChannelsListed(ids) => on_listed(s, ids@),
            Event::ListingFailed => fail(s, DispatchError::Listing),
            Event::CreationFailed => fail(s, DispatchError::Creation),
            Event::ConnectionFailed => fail(s, DispatchError::Connection),
            _ => (s, Seq::empty()),
        },
        Phase::Resolving => match event {
            Event::KindResolved(kind) => on_kind(s, kind),
            Event::ResolveFailed => fail(s, DispatchError::Listing),
            Event::CreationFailed => fail(s, DispatchError::Creation),
            Event::ConnectionFailed => fail(s, DispatchError::Connection),
            _ => (s, Seq::empty()),
        },
        Phase::Running => match event {
            Event::TasksJoined => (DispatcherState { phase: Phase::Finished, ..s }, Seq::empty()),
            Event::TaskFailed => fail(s, DispatchError::Send),
            Event::CreationFailed => fail(s, DispatchError::Creation),
            Event::ConnectionFailed => fail(s, DispatchError::Connection),
            _ => (s, Seq::empty()),
        },
        Phase::Finished => (s, Seq::empty()),
        Phase::Failed(_) => (s, Seq::empty()),
    }
}

/// The state reached from `s` after all of `events`, and every action asked
/// for on the way, in order.
pub open spec fn run_spec(s: DispatcherState, events: Seq<Event>) -> (DispatcherState, Seq<Action>)
    decreases events.len(),
{
    if events.len() == 0 {
        (s, Seq::empty())
    } else {
        let first = step_spec(s, events[0]);
        let rest = run_spec(first.0, events.drop_first());
        (rest.0, first.1 + rest.1)
    }
}

/// Handling `first` and then `second` is handling their concatenation.
pub proof fn lemma_run_concat(s: DispatcherState, first: Seq<Event>, second: Seq<Event>)
    ensures
        run_spec(s, first + second).0 == run_spec(run_spec(s, first).0, second).0,
        run_spec(s, first + second).1 == run_spec(s, first).1 + run_spec(
            run_spec(s, first).0,
            second,
        ).1,
    decreases first.len(),
{
    if first.len() == 0 {
        assert(first + second =~= second);
        assert(run_spec(s, first + second).1 =~= run_spec(s, first).1 + run_spec(
            run_spec(s, first).0,
            second,
        ).1);
    } else {
        let next = step_spec(s, first[0]);
        assert((first + second).drop_first() =~= first.drop_first() + second);
        lemma_run_concat(next.0, first.drop_first(), second);
        assert(run_spec(s, first + second).1 =~= run_spec(s, first).1 + run_spec(
            run_spec(s, first).0,
            second,
        ).1);
    }
}

/// Handling a single event is one step.
pub proof fn lemma_run_single(s: DispatcherState, event: Event)
    ensures
        run_spec(s, seq![event]) == step_spec(s, event),
{
    let events = seq![event];
    let next = step_spec(s, event);
    assert(events[0] == event);
    assert(events.drop_first() =~= Seq::<Event>::empty());
    assert(run_spec(next.0, events.drop_first()) == (next.0, Seq::<Action>::empty()));
    assert(run_spec(s, events).1 =~= next.1);
}

/// The setup of one run.
pub struct Dispatcher {
    phase: Phase,
    channel_amount: usize,
    name_len: usize,
    guild_id: u64,
    ping_id: u64,
    pending: Vec<u64>,
    cursor: usize,
    tasks: Vec<u64>,
}

impl View for Dispatcher {
    type V = DispatcherState;

    closed spec fn view(&self) -> DispatcherState {
        DispatcherState {
            phase: self.phase,
            channel_amount: self.channel_amount,
            name_len: self.name_len,
            guild_id: self.guild_id,
            ping_id: self.ping_id,
            pending: self.pending@,
            cursor: self.cursor as nat,
            tasks: self.tasks@,
        }
    }
}

impl Dispatcher {
    /// A dispatcher at process start, with the built-in channel count and
    /// name length.
    pub fn new() -> (d: Dispatcher)
        ensures
            d@ == initial(CHANNEL_AMOUNT, CHANNEL_NAME_LEN),
    {
        Dispatcher::with_request(CHANNEL_AMOUNT, CHANNEL_NAME_LEN)
    }

    /// A dispatcher at process start that creates `channel_amount` channels
    /// with names of `name_len` characters when creation is switched on.
    pub fn with_request(channel_amount: usize, name_len: usize) -> (d: Dispatcher)
        ensures
            d@ == initial(channel_amount, name_len),
    {
        Dispatcher {
            phase: Phase::Booting,
            channel_amount,
            name_len,
            guild_id: 0,
            ping_id: 0,
            pending: Vec::new(),
            cursor: 0,
            tasks: Vec::new(),
        }
    }

    /// The current phase.
    pub fn phase(&self) -> (p: Phase)
        ensures
            p == self@.phase,
    {
        self.phase
    }

    /// The text channels found so far. Once the dispatcher is running they
    /// are the channels whose senders were started.
    pub fn tasks(&self) -> (t: &Vec<u64>)
        ensures
            t@ == self@.tasks,
    {
        &self.tasks
    }

    /// Whether the run is over.
    pub fn is_over(&self) -> (over: bool)
        ensures
            over == is_terminal(self@.phase),
    {
        match self.phase {
            Phase::Finished => true,
            Phase::Failed(_) => true,
            _ => false,
        }
    }

    /// The failure that ended the run, if one did.
    pub fn failure(&self) -> (e: Option<DispatchError>)
        ensures
            e == (match self@.phase {
                Phase::Failed(error) => Some(error),
                _ => None,
            }),
    {
        match self.phase {
            Phase::Failed(error) => Some(error),
            _ => None,
        }
    }

    fn abort(&mut self, error: DispatchError) -> (actions: Vec<Action>)
        ensures
            final(self)@ == fail(old(self)@, error).0,
            actions@ == fail(old(self)@, error).1,
    {
        self.phase = Phase::Failed(error);
        let mut actions: Vec<Action> = Vec::new();
        actions.push(Action::Abort(error));
        assert(actions@ =~= seq![Action::Abort(error)]);
        actions
    }

    fn configure(&mut self, config: Config) -> (actions: Vec<Action>)
        ensures
            final(self)@ == on_config(old(self)@, config).0,
            actions@ == on_config(old(self)@, config).1,
    {
        let ghost before = self@;
        self.guild_id = config.guild_id;
        self.ping_id = config.ping_id;
        let mut actions: Vec<Action> = Vec::new();
        if !config.create_channel {
            self.phase = Phase::Listing;
            actions.push(Action::ListChannels { guild_id: config.guild_id });
        } else {
            actions.push(Action::Notify(Notice::CreatingChannels));
            match plan_creation(self.channel_amount) {
                Err(_) => {
                    self.phase = Phase::Listing;
                    actions.push(Action::Notify(Notice::CeilingExceeded));
                    actions.push(Action::ListChannels { guild_id: config.guild_id });
                },
                Ok(plan) => {
                    self.phase = Phase::Creating;
                    actions.push(
                        Action::CreateChannels {
                            guild_id: config.guild_id,
                            batches: plan.batches,
                            remainder: plan.remainder,
                            name_len: self.name_len,
                        },
                    );
                },
            }
        }
        assert(actions@ =~= on_config(before, config).1);
        actions
    }

    fn begin_resolving(&mut self, ids: Vec<u64>) -> (actions: Vec<Action>)
        ensures
            final(self)@ == on_listed(old(self)@, ids@).0,
            actions@ == on_listed(old(self)@, ids@).1,
    {
        let ghost before = self@;
        let mut actions: Vec<Action> = Vec::new();
        actions.push(Action::Notify(Notice::Pinging));
        if ids.len() == 0 {
            self.phase = Phase::Running;
            actions.push(Action::JoinTasks);
        } else {
            self.phase = Phase::Resolving;
            actions.push(Action::ResolveKind { channel_id: ids[0] });
        }
        self.pending = ids;
        self.cursor = 0;
        self.tasks = Vec::new();
        assert(actions@ =~= on_listed(before, ids@).1);
        actions
    }

    fn launch(&mut self) -> (actions: Vec<Action>)
        ensures
            final(self)@ == (DispatcherState { phase: Phase::Running, ..old(self)@ }),
            actions@ == start_all(old(self)@.tasks, old(self)@.ping_id).push(Action::JoinTasks),
    {
        self.phase = Phase::Running;
        let mut actions: Vec<Action> = Vec::new();
        let mut i: usize = 0;
        while i < self.tasks.len()
            invariant
                i <= self.tasks.len(),
                actions@ == start_all(self.tasks@.take(i as int), self.ping_id),
            decreases self.tasks.len() - i,
        {
            actions.push(Action::StartTask { channel_id: self.tasks[i], ping_id: self.ping_id });
            i += 1;
            assert(actions@ =~= start_all(self.tasks@.take(i as int), self.ping_id));
        }
        assert(self.tasks@.take(i as int) =~= self.tasks@);
        actions.push(Action::JoinTasks);
        actions
    }

    fn resolve(&mut self, kind: ChannelKind) -> (actions: Vec<Action>)
        ensures
            final(self)@ == on_kind(old(self)@, kind).0,
            actions@ == on_kind(old(self)@, kind).1,
    {
        let ghost before = self@;
        if self.cursor < self.pending.len() {
            match kind {
                ChannelKind::Text => {
                    self.tasks.push(self.pending[self.cursor]);
                },
                ChannelKind::Other => {},
            }
            self.cursor = self.cursor + 1;
            if self.cursor < self.pending.len() {
                let mut actions: Vec<Action> = Vec::new();
                actions.push(Action::ResolveKind { channel_id: self.pending[self.cursor] });
                assert(actions@ =~= on_kind(before, kind).1);
                actions
            } else {
                self.launch()
            }
        } else {
            self.launch()
        }
    }

    /// Handles one event and returns the actions to carry out, in order.
    pub fn step(&mut self, event: Event) -> (actions: Vec<Action>)
        ensures
            final(self)@ == step_spec(old(self)@, event).0,
            actions@ == step_spec(old(self)@, event).1,
    {
        let ghost before = self@;
        match self.phase {
            Phase::Booting => match event {
                Event::ConfigLoaded(config) => {
                    self.phase = Phase::Connecting;
                    let mut actions: Vec<Action> = Vec::new();
                    actions.push(Action::Connect { token: config.token });
                    assert(actions@ =~= step_spec(before, event).1);
                    actions
                },
                Event::ConfigFailed => self.abort(DispatchError::Config),
                _ => Vec::new(),
            },
            Phase::Connecting => match event {
                Event::Ready => {
                    self.phase = Phase::LoadingConfig;
                    let mut actions: Vec<Action> = Vec::new();
                    actions.push(Action::Notify(Notice::Connected));
                    actions.push(Action::LoadConfig);
                    assert(actions@ =~= step_spec(before, event).1);
                    actions
                },
                Event::ConnectionFailed => self.abort(DispatchError::Connection),
                _ => Vec::new(),
            },
            Phase::LoadingConfig => match event {
                Event::ConfigLoaded(config) => self.configure(config),
                Event::ConfigFailed => self.abort(DispatchError::Config),
                Event::ConnectionFailed => self.abort(DispatchError::Connection),
                _ => Vec::new(),
            },
            Phase::Creating => match event {
                Event::RemainderCreated => {
                    self.phase = Phase::Listing;
                    let mut actions: Vec<Action> = Vec::new();
                    actions.push(Action::Notify(Notice::DoneCreating));
                    actions.push(Action::ListChannels { guild_id: self.guild_id });
                    assert(actions@ =~= step_spec(before, event).1);
                    actions
                },
                Event::CreationFailed => self.abort(DispatchError::Creation),
                Event::ConnectionFailed => self.abort(DispatchError::Connection),
                _ => Vec::new(),
            },
            Phase::Listing => match event {
                Event::ChannelsListed(ids) => self.begin_resolving(ids),
                Event::ListingFailed => self.abort(DispatchError::Listing),
                Event::CreationFailed => self.abort(DispatchError::Creation),
                Event::ConnectionFailed => self.abort(DispatchError::Connection),
                _ => Vec::new(),
            },
            Phase::Resolving => match event {
                Event::KindResolved(kind) => self.resolve(kind),
                Event::ResolveFailed => self.abort(DispatchError::Listing),
                Event::CreationFailed => self.abort(DispatchError::Creation),
                Event::ConnectionFailed => self.abort(DispatchError::Connection),
                _ => Vec::new(),
            },
            Phase::Running => match event {
                Event::TasksJoined => {
                    self.phase = Phase::Finished;
                    Vec::new()
                },
                Event::TaskFailed => self.abort(DispatchError::Send),
                Event::CreationFailed => self.abort(DispatchError::Creation),
                Event::ConnectionFailed => self.abort(DispatchError::Connection),
                _ => Vec::new(),
            },
            Phase::Finished => Vec::new(),
            Phase::Failed(_) => Vec::new(),
        }
    }

    /// Handles a whole script of events, one after another, and returns
    /// every action asked for on the way, in order.
    pub fn run(&mut self, events: Vec<Event>) -> (actions: Vec<Action>)
        ensures
            final(self)@ == run_spec(old(self)@, events@).0,
            actions@ == run_spec(old(self)@, events@).1,
    {
        let ghost start = self@;
        let ghost script = events@;
        let mut actions: Vec<Action> = Vec::new();
        for event in it: events.into_iter()
            invariant
                it.seq() == script,
                self@ == run_spec(start, script.take(it.index())).0,
                actions@ == run_spec(start, script.take(it.index())).1,
        {
            let ghost done = script.take(it.index());
            let ghost here = self@;
            let mut more = self.step(event);
            actions.append(&mut more);
            proof {
                lemma_run_concat(start, done, seq![event]);
                lemma_run_single(here, event);
                assert(script.take(it.index() + 1) =~= done + seq![event]);
            }
        }
        assert(script.take(script.len() as int) =~= script);
        actions
    }
}

} // verus!
