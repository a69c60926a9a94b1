//! What holds of every run of the setup, whatever the caller reports.

use crate::config::Config;
use crate::dispatcher::{
    fail, initial, is_network, is_terminal, lemma_run_concat, lemma_run_single, on_kind, on_listed,
    run_spec, start_all, step_spec, Action, ChannelKind, DispatcherState, Event, Notice, Phase,
};
use crate::error::DispatchError;
use crate::plan::{lemma_plan_total, spec_batches, spec_remainder, BATCH_SIZE, MAX_CHANNELS};
use crate::repeat::{fresh, issued, lemma_bounded_run, start_then_successes};
use vstd::prelude::*;

verus! {

/// The channels among `ids` whose kind is text, in listing order.
pub open spec fn retained(ids: Seq<u64>, kinds: Seq<ChannelKind>) -> Seq<u64>
    recommends
        ids.len() == kinds.len(),
    decreases ids.len(),
{
    if ids.len() == 0 {
        Seq::empty()
    } else {
        let before = retained(ids.drop_last(), kinds.drop_last());
        if kinds.last() == ChannelKind::Text {
            before.push(ids.last())
        } else {
            before
        }
    }
}

/// The channels for which `actions` start a sender, in order.
pub open spec fn started(actions: Seq<Action>) -> Seq<u64>
    decreases actions.len(),
{
    if actions.len() == 0 {
        Seq::empty()
    } else {
        let before = started(actions.drop_last());
        match actions.last() {
            Action::StartTask { channel_id, .. } => before.push(channel_id),
            _ => before,
        }
    }
}

/// What the caller reports while the channels `ids` are listed and their
/// kinds come back as `kinds`, one per channel.
pub open spec fn resolution_script(ids: Vec<u64>, kinds: Seq<ChannelKind>) -> Seq<Event> {
    seq![Event::ChannelsListed(ids)] + kind_reports(kinds, 0)
}

/// The reports of the kinds from position `from` on.
pub open spec fn kind_reports(kinds: Seq<ChannelKind>, from: nat) -> Seq<Event> {
    Seq::new((kinds.len() - from) as nat, |i: int| Event::KindResolved(kinds[from + i]))
}

/// Once the run is over, nothing that is reported changes the state or asks
/// for another action.
pub proof fn lemma_over_is_final(s: DispatcherState, events: Seq<Event>)
    requires
        is_terminal(s.phase),
    ensures
        run_spec(s, events) == (s, Seq::<Action>::empty()),
    decreases events.len(),
{
    if events.len() > 0 {
        lemma_over_is_final(s, events.drop_first());
        assert(run_spec(s, events).1 =~= Seq::<Action>::empty());
    }
}

/// A run that starts with an unreadable configuration is aborted with the
/// configuration failure and asks for nothing else: no connection is opened
/// and no other network call is made, whatever is reported afterwards.
pub proof fn lemma_bad_config_never_connects(
    channel_amount: usize,
    name_len: usize,
    later: Seq<Event>,
)
    ensures
        run_spec(initial(channel_amount, name_len), seq![Event::ConfigFailed] + later) == fail(
            initial(channel_amount, name_len),
            DispatchError::Config,
        ),
        forall|i: int|
            0 <= i < run_spec(
                initial(channel_amount, name_len),
                seq![Event::ConfigFailed] + later,
            ).1.len() ==> !is_network(
                #[trigger] run_spec(
                    initial(channel_amount, name_len),
                    seq![Event::ConfigFailed] + later,
                ).1[i],
            ),
{
    let s = initial(channel_amount, name_len);
    let failed = fail(s, DispatchError::Config);
    lemma_run_concat(s, seq![Event::ConfigFailed], later);
    lemma_run_single(s, Event::ConfigFailed);
    lemma_over_is_final(failed.0, later);
    assert(run_spec(s, seq![Event::ConfigFailed] + later).1 =~= failed.1);
}

/// With creation switched on and a request above the ceiling, the
/// configuration step warns, asks for no creation, and goes on to list the
/// channels.
pub proof fn lemma_ceiling_skips_creation(s: DispatcherState, config: Config)
    requires
        s.phase == Phase::LoadingConfig,
        config.create_channel,
        s.channel_amount > MAX_CHANNELS,
    ensures
        step_spec(s, Event::ConfigLoaded(config)).0.phase == Phase::Listing,
        step_spec(s, Event::ConfigLoaded(config)).1 == seq![
            Action::Notify(Notice::CreatingChannels),
            Action::Notify(Notice::CeilingExceeded),
            Action::ListChannels { guild_id: config.guild_id },
        ],
        forall|i: int|
            0 <= i < step_spec(s, Event::ConfigLoaded(config)).1.len() ==> !(#[trigger] step_spec(
                s,
                Event::ConfigLoaded(config),
            ).1[i] is CreateChannels),
{
}

/// With creation switched on and a request within the ceiling, the
/// configuration step asks for one creation round whose batches and
/// remainder add up to the request, and the workers of that round, each
/// started and told of success until done, issue exactly as many creation
/// calls as were requested.
pub proof fn lemma_creation_covers_request(s: DispatcherState, config: Config)
    requires
        s.phase == Phase::LoadingConfig,
        config.create_channel,
        s.channel_amount <= MAX_CHANNELS,
    ensures
        step_spec(s, Event::ConfigLoaded(config)).0.phase == Phase::Creating,
        step_spec(s, Event::ConfigLoaded(config)).1.len() == 2,
        step_spec(s, Event::ConfigLoaded(config)).1[1] == (Action::CreateChannels {
            guild_id: config.guild_id,
            batches: spec_batches(s.channel_amount as nat) as usize,
            remainder: spec_remainder(s.channel_amount as nat) as usize,
            name_len: s.name_len,
        }),
        spec_batches(s.channel_amount as nat) * issued(
            fresh(Some(BATCH_SIZE as u64)),
            start_then_successes(BATCH_SIZE as nat),
        ) + issued(
            fresh(Some(spec_remainder(s.channel_amount as nat) as u64)),
            start_then_successes(spec_remainder(s.channel_amount as nat)),
        ) == s.channel_amount,
{
    lemma_plan_total(s.channel_amount as nat);
    lemma_bounded_run(BATCH_SIZE as u64);
    lemma_bounded_run(spec_remainder(s.channel_amount as nat) as u64);
}

/// A channel is retained exactly if it was listed at a position whose kind
/// is text.
pub proof fn lemma_retained_members(ids: Seq<u64>, kinds: Seq<ChannelKind>, channel: u64)
    requires
        ids.len() == kinds.len(),
    ensures
        retained(ids, kinds).contains(channel) <==> exists|i: int|
            0 <= i < ids.len() && #[trigger] ids[i] == channel && kinds[i] == ChannelKind::Text,
    decreases ids.len(),
{
    if ids.len() > 0 {
        let front = ids.drop_last();
        let front_kinds = kinds.drop_last();
        let before = retained(front, front_kinds);
        lemma_retained_members(front, front_kinds, channel);
        let last = ids.len() - 1;
        if retained(ids, kinds).contains(channel) {
            if before.contains(channel) {
                let i = choose|i: int|
                    0 <= i < front.len() && #[trigger] front[i] == channel && front_kinds[i]
                        == ChannelKind::Text;
                assert(ids[i] == channel && kinds[i] == ChannelKind::Text);
            } else {
                let r = retained(ids, kinds);
                let k = choose|k: int| 0 <= k < r.len() && r[k] == channel;
                assert(kinds.last() == ChannelKind::Text);
                assert(k == before.len());
                assert(ids[last] == channel && kinds[last] == ChannelKind::Text);
            }
        }
        if exists|i: int|
            0 <= i < ids.len() && #[trigger] ids[i] == channel && kinds[i] == ChannelKind::Text {
            let i = choose|i: int|
                0 <= i < ids.len() && #[trigger] ids[i] == channel && kinds[i]
                    == ChannelKind::Text;
            if i < last {
                assert(front[i] == channel && front_kinds[i] == ChannelKind::Text);
                assert(before.contains(channel));
                let k = choose|k: int| 0 <= k < before.len() && before[k] == channel;
                assert(retained(ids, kinds)[k] == channel);
            } else {
                assert(retained(ids, kinds)[before.len() as int] == channel);
            }
        }
    }
}

/// The senders started by two runs of actions are those of the first
/// followed by those of the second.
pub proof fn lemma_started_concat(first: Seq<Action>, second: Seq<Action>)
    ensures
        started(first + second) == started(first) + started(second),
    decreases second.len(),
{
    if second.len() == 0 {
        assert(first + second =~= first);
        assert(started(first) + started(second) =~= started(first));
    } else {
        assert((first + second).drop_last() =~= first + second.drop_last());
        lemma_started_concat(first, second.drop_last());
        assert(started(first + second) =~= started(first) + started(second));
    }
}

/// The senders started by the actions that start each of `channels` are
/// those channels.
pub proof fn lemma_started_start_all(channels: Seq<u64>, ping_id: u64)
    ensures
        started(start_all(channels, ping_id)) == channels,
    decreases channels.len(),
{
    let actions = start_all(channels, ping_id);
    if channels.len() > 0 {
        assert(actions.drop_last() =~= start_all(channels.drop_last(), ping_id));
        lemma_started_start_all(channels.drop_last(), ping_id);
        assert(actions.last() == Action::StartTask { channel_id: channels.last(), ping_id });
        assert(started(actions) =~= channels);
    } else {
        assert(started(actions) =~= channels);
    }
}

/// Where no sender is counted as started, no action starts one.
pub proof fn lemma_nothing_started(actions: Seq<Action>)
    requires
        started(actions).len() == 0,
    ensures
        forall|i: int| 0 <= i < actions.len() ==> !(#[trigger] actions[i] is StartTask),
    decreases actions.len(),
{
    if actions.len() > 0 {
        let front = actions.drop_last();
        assert(!(actions.last() is StartTask));
        lemma_nothing_started(front);
        assert forall|i: int| 0 <= i < actions.len() implies !(#[trigger] actions[i]
            is StartTask) by {
            if i < front.len() {
                assert(front[i] == actions[i]);
            }
        }
    }
}

proof fn lemma_started_single(actions: Seq<Action>)
    requires
        actions.len() == 1,
        !(actions[0] is StartTask),
    ensures
        started(actions) == Seq::<u64>::empty(),
{
    assert(actions.drop_last() =~= Seq::<Action>::empty());
    assert(started(actions.drop_last()) =~= Seq::<u64>::empty());
    assert(actions.last() == actions[0]);
}

proof fn lemma_started_launch(channels: Seq<u64>, ping_id: u64)
    ensures
        started(start_all(channels, ping_id).push(Action::JoinTasks)) == channels,
{
    let all = start_all(channels, ping_id).push(Action::JoinTasks);
    assert(all.drop_last() =~= start_all(channels, ping_id));
    lemma_started_start_all(channels, ping_id);
}

proof fn lemma_resolution_from(s: DispatcherState, kinds: Seq<ChannelKind>)
    requires
        s.phase == Phase::Resolving,
        s.cursor < s.pending.len(),
        s.pending.len() == kinds.len(),
        s.tasks == retained(s.pending.take(s.cursor as int), kinds.take(s.cursor as int)),
    ensures
        run_spec(s, kind_reports(kinds, s.cursor)).0.phase == Phase::Running,
        run_spec(s, kind_reports(kinds, s.cursor)).0.tasks == retained(s.pending, kinds),
        started(run_spec(s, kind_reports(kinds, s.cursor)).1) == retained(s.pending, kinds),
    decreases s.pending.len() - s.cursor,
{
    let j = s.cursor as int;
    let events = kind_reports(kinds, s.cursor);
    let next = on_kind(s, kinds[j]);
    let rest = kind_reports(kinds, s.cursor + 1);
    assert(events[0] == Event::KindResolved(kinds[j]));
    assert(events.drop_first() =~= rest);
    assert(step_spec(s, events[0]) == next);
    assert(s.pending.take(j + 1).drop_last() =~= s.pending.take(j));
    assert(kinds.take(j + 1).drop_last() =~= kinds.take(j));
    assert(next.0.tasks == retained(s.pending.take(j + 1), kinds.take(j + 1)));
    let end = run_spec(next.0, rest);
    if j + 1 < s.pending.len() {
        lemma_resolution_from(next.0, kinds);
        lemma_started_single(next.1);
    } else {
        assert(rest.len() == 0);
        assert(s.pending.take(j + 1) =~= s.pending);
        assert(kinds.take(j + 1) =~= kinds);
        assert(started(end.1) =~= Seq::<u64>::empty());
        lemma_started_launch(next.0.tasks, s.ping_id);
    }
    lemma_started_concat(next.1, end.1);
    assert(started(next.1 + end.1) =~= retained(s.pending, kinds));
}

proof fn lemma_partial_resolution(s: DispatcherState, kinds: Seq<ChannelKind>)
    requires
        s.phase == Phase::Resolving,
        s.cursor <= kinds.len() < s.pending.len(),
    ensures
        run_spec(s, kind_reports(kinds, s.cursor)).0.phase == Phase::Resolving,
        started(run_spec(s, kind_reports(kinds, s.cursor)).1) == Seq::<u64>::empty(),
    decreases kinds.len() - s.cursor,
{
    let events = kind_reports(kinds, s.cursor);
    if s.cursor < kinds.len() {
        let j = s.cursor as int;
        let next = on_kind(s, kinds[j]);
        let rest = kind_reports(kinds, s.cursor + 1);
        assert(events[0] == Event::KindResolved(kinds[j]));
        assert(events.drop_first() =~= rest);
        assert(step_spec(s, events[0]) == next);
        lemma_partial_resolution(next.0, kinds);
        lemma_started_single(next.1);
        lemma_started_concat(next.1, run_spec(next.0, rest).1);
        assert(started(run_spec(s, events).1) =~= Seq::<u64>::empty());
    } else {
        assert(events.len() == 0);
    }
}

/// After the channels are listed and every kind has come back, the setup
/// waits for its senders, and the senders it started are exactly the listed
/// channels whose kind is text, in listing order: each of them once, and no
/// other channel.
pub proof fn lemma_tasks_are_text_channels(
    s: DispatcherState,
    ids: Vec<u64>,
    kinds: Seq<ChannelKind>,
)
    requires
        s.phase == Phase::Listing,
        ids@.len() == kinds.len(),
    ensures
        run_spec(s, resolution_script(ids, kinds)).0.phase == Phase::Running,
        run_spec(s, resolution_script(ids, kinds)).0.tasks == retained(ids@, kinds),
        started(run_spec(s, resolution_script(ids, kinds)).1) == retained(ids@, kinds),
{
    let listed = Event::ChannelsListed(ids);
    let reports = kind_reports(kinds, 0);
    let next = on_listed(s, ids@);
    lemma_run_concat(s, seq![listed], reports);
    lemma_run_single(s, listed);
    let end = run_spec(next.0, reports);
    lemma_started_listed(s, ids@);
    if ids@.len() == 0 {
        assert(reports.len() == 0);
        assert(started(end.1) =~= Seq::<u64>::empty());
    } else {
        assert(ids@.take(0) =~= Seq::<u64>::empty());
        lemma_resolution_from(next.0, kinds);
    }
    lemma_started_concat(next.1, end.1);
    assert(started(next.1 + end.1) =~= retained(ids@, kinds));
}

proof fn lemma_started_listed(s: DispatcherState, ids: Seq<u64>)
    ensures
        started(on_listed(s, ids).1) == Seq::<u64>::empty(),
{
    let actions = on_listed(s, ids).1;
    let head = actions.drop_last();
    assert(actions.len() == 2);
    assert(head =~= seq![Action::Notify(Notice::Pinging)]);
    assert(head.last() == Action::Notify(Notice::Pinging));
    assert(head.drop_last() =~= Seq::<Action>::empty());
    assert(started(head.drop_last()) =~= Seq::<u64>::empty());
    assert(started(head) =~= Seq::<u64>::empty());
    assert(actions.last() is JoinTasks || actions.last() is ResolveKind);
}

/// A kind lookup that fails ends the run with the listing failure before any
/// sender is started: however many lookups succeeded before it, and whatever
/// kinds they gave, no action of the whole run starts a sender.
pub proof fn lemma_failed_lookup_starts_nothing(
    s: DispatcherState,
    ids: Vec<u64>,
    kinds: Seq<ChannelKind>,
    later: Seq<Event>,
)
    requires
        s.phase == Phase::Listing,
        kinds.len() < ids@.len(),
    ensures
        run_spec(
            s,
            resolution_script(ids, kinds) + seq![Event::ResolveFailed] + later,
        ).0.phase == Phase::Failed(DispatchError::Listing),
        started(
            run_spec(s, resolution_script(ids, kinds) + seq![Event::ResolveFailed] + later).1,
        ) == Seq::<u64>::empty(),
        forall|i: int|
            0 <= i < run_spec(
                s,
                resolution_script(ids, kinds) + seq![Event::ResolveFailed] + later,
            ).1.len() ==> !(#[trigger] run_spec(
                s,
                resolution_script(ids, kinds) + seq![Event::ResolveFailed] + later,
            ).1[i] is StartTask),
{
    let listed = Event::ChannelsListed(ids);
    let reports = kind_reports(kinds, 0);
    let script = resolution_script(ids, kinds);
    let failure = seq![Event::ResolveFailed];
    let whole = script + failure + later;
    let next = on_listed(s, ids@);
    lemma_run_concat(s, seq![listed], reports);
    lemma_run_single(s, listed);
    lemma_started_listed(s, ids@);
    lemma_partial_resolution(next.0, kinds);
    let mid = run_spec(next.0, reports);
    lemma_started_concat(next.1, mid.1);
    assert(started(run_spec(s, script).1) =~= Seq::<u64>::empty());
    let at = run_spec(s, script);
    assert(at.0 == mid.0);
    let failed = fail(at.0, DispatchError::Listing);
    lemma_run_single(at.0, Event::ResolveFailed);
    lemma_run_concat(s, script, failure);
    lemma_over_is_final(failed.0, later);
    lemma_run_concat(s, script + failure, later);
    lemma_started_single(failed.1);
    lemma_started_concat(at.1, failed.1);
    assert(run_spec(s, whole).1 =~= at.1 + failed.1);
    lemma_nothing_started(run_spec(s, whole).1);
}

/// A sender is started only by the step that completes the setup: the step
/// handles the kind of the last listed channel and leaves the dispatcher
/// running. No step that fails, and no step of an earlier phase, starts one.
pub proof fn lemma_senders_start_on_entering_running(s: DispatcherState, event: Event, i: int)
    requires
        0 <= i < step_spec(s, event).1.len(),
        step_spec(s, event).1[i] is StartTask,
    ensures
        s.phase == Phase::Resolving,
        event is KindResolved,
        step_spec(s, event).0.phase == Phase::Running,
{
}

/// A refused message ends the run at once: the only action asked for is the
/// abort with the send failure, and nothing reported later changes that.
pub proof fn lemma_send_failure_aborts(s: DispatcherState, later: Seq<Event>)
    requires
        s.phase == Phase::Running,
    ensures
        run_spec(s, seq![Event::TaskFailed] + later) == fail(s, DispatchError::Send),
{
    let failed = fail(s, DispatchError::Send);
    lemma_run_concat(s, seq![Event::TaskFailed], later);
    lemma_run_single(s, Event::TaskFailed);
    lemma_over_is_final(failed.0, later);
    assert(run_spec(s, seq![Event::TaskFailed] + later).1 =~= failed.1);
}

/// Before the setup has finished no sender exists, and a report that one
/// failed changes nothing and asks for nothing.
pub proof fn lemma_no_sender_before_running(s: DispatcherState)
    requires
        s.phase != Phase::Running,
    ensures
        step_spec(s, Event::TaskFailed) == (s, Seq::<Action>::empty()),
{
}

} // verus!
