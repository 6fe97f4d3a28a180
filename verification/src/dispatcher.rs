//! The single dispatch point all shards feed into: it updates the cache,
//! decides when the periodic reporter starts (exactly once, on shard 0's
//! first `Ready`), and hands message events to the application handler.

use vstd::prelude::*;
use crate::cache::{Cache, Identity};

verus! {

/// How many abstract time units the periodic reporter waits between reads of
/// the guild-count snapshot.
pub const REPORT_INTERVAL: u64 = 5;

/// A decoded event arriving from a shard's stream.
#[derive(Clone, Debug, PartialEq)]
pub enum Event {
    /// The platform acknowledged the connection: the bot's identity and a
    /// snapshot of the guilds this shard carries.
    Ready { identity: Identity, guild_snapshot: Vec<u64> },
    /// A chat message.
    Message { author: String, content: String },
    /// The bot gained sight of one guild.
    GuildCreate { guild_id: u64 },
    /// Any other event; passed through with no cache effect.
    Other,
}

/// What the dispatcher asks its surroundings to do for one event.
#[derive(Clone, Debug, PartialEq)]
pub enum DispatchOutcome {
    /// A `Ready` event was recorded: announce the identity and current guild
    /// count, and start the periodic reporter if `start_reporter` is set.
    ReadyAnnounced { user_name: String, guild_count: usize, start_reporter: bool },
    /// A message event: invoke the registered application handler.
    HandlerInvoked { author: String, content: String },
    /// No outside work to do.
    PassedThrough,
}

/// What the dispatcher's state means mathematically: the set of observed
/// guilds, the cached identity, and whether the reporter runs.
#[verifier::ext_equal]
pub struct DispatcherView {
    /// The set of guilds the cache knows of.
    pub guilds: Set<u64>,
    /// The cached identity, if a `Ready` event was seen.
    pub user: Option<Identity>,
    /// Whether the periodic reporter has been started.
    pub reporter_started: bool,
}

/// The single logical sink all shards dispatch into.
pub struct Dispatcher {
    /// The process-wide cache this dispatcher updates.
    pub cache: Cache,
    /// Whether the periodic reporter has already been started.
    pub reporter_started: bool,
}

impl View for Dispatcher {
    type V = DispatcherView;

    open spec fn view(&self) -> DispatcherView {
        DispatcherView {
            guilds: self.cache.guild_set(),
            user: self.cache.current_user,
            reporter_started: self.reporter_started,
        }
    }
}

/// The dispatcher state and outcome after one event from the given shard.
pub open spec fn spec_dispatch(d: DispatcherView, event: Event, source_shard: u64) -> (
    DispatcherView,
    DispatchOutcome,
) {
    match event {
        Event::Ready { identity, guild_snapshot } => {
            let guilds = d.guilds + guild_snapshot@.to_set();
            (
                DispatcherView {
                    guilds,
                    user: Some(identity),
                    reporter_started: d.reporter_started || source_shard == 0,
                },
                DispatchOutcome::ReadyAnnounced {
                    user_name: identity.name,
                    guild_count: guilds.len() as usize,
                    start_reporter: source_shard == 0 && !d.reporter_started,
                },
            )
        },
        Event::Message { author, content } => (
            d,
            DispatchOutcome::HandlerInvoked { author, content },
        ),
        Event::GuildCreate { guild_id } => (
            DispatcherView { guilds: d.guilds.insert(guild_id), ..d },
            DispatchOutcome::PassedThrough,
        ),
        Event::Other => (d, DispatchOutcome::PassedThrough),
    }
}

/// The dispatcher state and per-event outcomes after a run of events from one
/// shard, in arrival order.
pub open spec fn spec_run(d: DispatcherView, events: Seq<Event>, source_shard: u64) -> (
    DispatcherView,
    Seq<DispatchOutcome>,
)
    decreases events.len(),
{
    if events.len() == 0 {
        (d, Seq::empty())
    } else {
        let first = spec_dispatch(d, events[0], source_shard);
        let rest = spec_run(first.0, events.drop_first(), source_shard);
        (rest.0, seq![first.1] + rest.1)
    }
}

/// Whether an outcome asks for the periodic reporter to start.
pub open spec fn spec_starts_reporter(outcome: DispatchOutcome) -> bool {
    outcome matches DispatchOutcome::ReadyAnnounced { start_reporter: true, .. }
}

/// How many outcomes in the sequence ask for the reporter to start.
pub open spec fn spec_reporter_starts(outcomes: Seq<DispatchOutcome>) -> nat
    decreases outcomes.len(),
{
    if outcomes.len() == 0 {
        0
    } else {
        (if spec_starts_reporter(outcomes[0]) {
            1nat
        } else {
            0nat
        }) + spec_reporter_starts(outcomes.drop_first())
    }
}

/// The guild ids one event contributes to the cache.
pub open spec fn spec_event_guilds(event: Event) -> Set<u64> {
    match event {
        Event::Ready { guild_snapshot, .. } => guild_snapshot@.to_set(),
        Event::GuildCreate { guild_id } => Set::empty().insert(guild_id),
        _ => Set::empty(),
    }
}

/// The guild ids a run of events contributes to the cache.
pub open spec fn spec_events_guilds(events: Seq<Event>) -> Set<u64>
    decreases events.len(),
{
    if events.len() == 0 {
        Set::empty()
    } else {
        spec_event_guilds(events[0]) + spec_events_guilds(events.drop_first())
    }
}

/// Law: one dispatch step never shrinks the guild set and never turns the
/// reporter off.
pub proof fn lemma_dispatch_monotone(d: DispatcherView, event: Event, source_shard: u64)
    ensures
        d.guilds <= spec_dispatch(d, event, source_shard).0.guilds,
        d.reporter_started ==> spec_dispatch(d, event, source_shard).0.reporter_started,
{
}

/// Law: processing a batch of events grows the guild set by exactly the
/// distinct guild ids the batch carries — it never shrinks, and starting from
/// an empty cache its size is the number of distinct ids seen.
pub proof fn lemma_run_guilds(d: DispatcherView, events: Seq<Event>, source_shard: u64)
    ensures
        spec_run(d, events, source_shard).0.guilds == d.guilds + spec_events_guilds(events),
        d.guilds <= spec_run(d, events, source_shard).0.guilds,
    decreases events.len(),
{
    if events.len() == 0 {
        assert(spec_run(d, events, source_shard).0.guilds =~= d.guilds + spec_events_guilds(
            events,
        ));
    } else {
        let d1 = spec_dispatch(d, events[0], source_shard).0;
        lemma_run_guilds(d1, events.drop_first(), source_shard);
        assert(d1.guilds =~= d.guilds + spec_event_guilds(events[0]));
        assert(spec_run(d, events, source_shard).0.guilds =~= d.guilds + spec_events_guilds(
            events,
        ));
    }
}

/// Law: cache updates are idempotent: dispatching the same event twice — as
/// concurrent, possibly repeated delivery across shards may do — leaves
/// exactly the cache state that dispatching it once leaves.
pub proof fn lemma_cache_update_idempotent(d: DispatcherView, event: Event, source_shard: u64)
    ensures
        spec_dispatch(spec_dispatch(d, event, source_shard).0, event, source_shard).0
            == spec_dispatch(d, event, source_shard).0,
{
    let once = spec_dispatch(d, event, source_shard).0;
    let twice = spec_dispatch(once, event, source_shard).0;
    match event {
        Event::Ready { guild_snapshot, .. } => {
            assert(twice.guilds =~= once.guilds);
            assert(twice =~= once);
        },
        Event::GuildCreate { guild_id } => {
            assert(twice.guilds =~= once.guilds);
            assert(twice =~= once);
        },
        _ => {},
    }
}

/// Law: delivering two `Ready` events on shard 0 — a reconnect — starts the
/// periodic reporter at most once: the second `Ready` never starts it again.
pub proof fn lemma_second_ready_never_restarts(d: DispatcherView, e1: Event, e2: Event)
    requires
        e1 is Ready,
        e2 is Ready,
    ensures
        !spec_starts_reporter(spec_dispatch(spec_dispatch(d, e1, 0).0, e2, 0).1),
{
}

/// Law: over any run of events from any shard, the dispatcher asks for the
/// reporter to start at most once — never, if it is already running.
pub proof fn lemma_reporter_starts_at_most_once(
    d: DispatcherView,
    events: Seq<Event>,
    source_shard: u64,
)
    ensures
        spec_reporter_starts(spec_run(d, events, source_shard).1) <= if d.reporter_started {
            0nat
        } else {
            1nat
        },
    decreases events.len(),
{
    if events.len() > 0 {
        let step = spec_dispatch(d, events[0], source_shard);
        let rest = spec_run(step.0, events.drop_first(), source_shard);
        lemma_reporter_starts_at_most_once(step.0, events.drop_first(), source_shard);
        let outs = spec_run(d, events, source_shard).1;
        assert(outs[0] == step.1);
        assert(outs.drop_first() =~= rest.1);
        if spec_starts_reporter(step.1) {
            assert(step.0.reporter_started);
        }
        if d.reporter_started {
            assert(step.0.reporter_started);
        }
    }
}

/// Law: outcomes come back index for index with the events of one shard, in
/// arrival order: the run yields exactly one outcome per event, and the
/// handler invocation at position `i` carries the message of event `i`.
pub proof fn lemma_per_shard_order(d: DispatcherView, events: Seq<Event>, source_shard: u64)
    ensures
        spec_run(d, events, source_shard).1.len() == events.len(),
        forall|i: int|
            0 <= i < events.len() ==> ((#[trigger] events[i]) matches Event::Message {
                author,
                content,
            } ==> spec_run(d, events, source_shard).1[i] == (DispatchOutcome::HandlerInvoked {
                author,
                content,
            })),
    decreases events.len(),
{
    if events.len() > 0 {
        let step = spec_dispatch(d, events[0], source_shard);
        lemma_per_shard_order(step.0, events.drop_first(), source_shard);
        let outs = spec_run(d, events, source_shard).1;
        let rest = spec_run(step.0, events.drop_first(), source_shard).1;
        assert forall|i: int| 0 <= i < events.len() implies ((#[trigger] events[i])
            matches Event::Message { author, content } ==> outs[i]
            == (DispatchOutcome::HandlerInvoked { author, content })) by {
            if i > 0 {
                assert(events[i] == events.drop_first()[i - 1]);
                assert(outs[i] == rest[i - 1]);
            }
        }
    }
}

impl Dispatcher {
    /// The cache keeps its invariant.
    pub open spec fn wf(self) -> bool {
        self.cache.wf()
    }

    /// Creates a dispatcher over an empty cache, reporter not yet started.
    pub fn new() -> (d: Dispatcher)
        ensures
            d.wf(),
            d@.user is None,
            d@.guilds == Set::<u64>::empty(),
            !d@.reporter_started,
    {
        Dispatcher { cache: Cache::new(), reporter_started: false }
    }

    /// Dispatches one event from the given shard: updates the cache, guards
    /// the reporter so it starts at most once, and says what outside work is
    /// owed. Safe for any shard to call with its events in arrival order.
    pub fn dispatch(&mut self, event: &Event, source_shard: u64) -> (outcome: DispatchOutcome)
        requires
            old(self).wf(),
        ensures
            final(self).wf(),
            final(self)@ == spec_dispatch(old(self)@, *event, source_shard).0,
            outcome == spec_dispatch(old(self)@, *event, source_shard).1,
            old(self)@.guilds <= final(self)@.guilds,
            old(self)@.reporter_started ==> final(self)@.reporter_started,
    {
        match event {
            Event::Ready { identity, guild_snapshot } => {
                self.cache.record_ready(identity, guild_snapshot);
                let count = self.cache.guild_count();
                let starts = source_shard == 0 && !self.reporter_started;
                if source_shard == 0 {
                    self.reporter_started = true;
                }
                proof {
                    assert(self@ =~= spec_dispatch(old(self)@, *event, source_shard).0);
                }
                DispatchOutcome::ReadyAnnounced {
                    user_name: identity.name.clone(),
                    guild_count: count,
                    start_reporter: starts,
                }
            },
            Event::Message { author, content } => {
                proof {
                    assert(self@ =~= spec_dispatch(old(self)@, *event, source_shard).0);
                }
                DispatchOutcome::HandlerInvoked {
                    author: author.clone(),
                    content: content.clone(),
                }
            },
            Event::GuildCreate { guild_id } => {
                self.cache.insert_guild(*guild_id);
                proof {
                    assert(self@ =~= spec_dispatch(old(self)@, *event, source_shard).0);
                }
                DispatchOutcome::PassedThrough
            },
            Event::Other => {
                proof {
                    assert(self@ =~= spec_dispatch(old(self)@, *event, source_shard).0);
                }
                DispatchOutcome::PassedThrough
            },
        }
    }

    /// Dispatches a run of events from one shard, in arrival order, and
    /// returns the outcome of each, index for index.
    pub fn dispatch_all(&mut self, events: &Vec<Event>, source_shard: u64) -> (outcomes: Vec<
        DispatchOutcome,
    >)
        requires
            old(self).wf(),
        ensures
            final(self).wf(),
            final(self)@ == spec_run(old(self)@, events@, source_shard).0,
            outcomes@ == spec_run(old(self)@, events@, source_shard).1,
    {
        let mut outcomes: Vec<DispatchOutcome> = Vec::new();
        let mut i: usize = 0;
        let len = events.len();
        proof {
            assert(events@.skip(0) =~= events@);
        }
        while i < len
            invariant
                i <= len,
                len == events@.len(),
                self.wf(),
                spec_run(old(self)@, events@, source_shard).0 == spec_run(
                    self@,
                    events@.skip(i as int),
                    source_shard,
                ).0,
                spec_run(old(self)@, events@, source_shard).1 == outcomes@ + spec_run(
                    self@,
                    events@.skip(i as int),
                    source_shard,
                ).1,
            decreases len - i,
        {
            proof {
                assert(events@.skip(i as int)[0] == events@[i as int]);
                assert(events@.skip(i as int).drop_first() =~= events@.skip(i + 1));
            }
            let ghost mid = self@;
            let outcome = self.dispatch(&events[i], source_shard);
            outcomes.push(outcome);
            proof {
                assert(spec_run(mid, events@.skip(i as int), source_shard).1 == seq![
                    spec_dispatch(mid, events@[i as int], source_shard).1,
                ] + spec_run(self@, events@.skip(i + 1), source_shard).1);
                assert(outcomes@ + spec_run(self@, events@.skip(i + 1), source_shard).1
                    =~= spec_run(old(self)@, events@, source_shard).1);
            }
            i = i + 1;
        }
        proof {
            assert(events@.skip(len as int) =~= Seq::<Event>::empty());
            assert(outcomes@ + Seq::<DispatchOutcome>::empty() =~= outcomes@);
        }
        outcomes
    }

    /// One tick of the periodic reporter: reads the current guild-count
    /// snapshot from the cache, without touching any state.
    pub fn reporter_tick(&self) -> (n: usize)
        requires
            self.wf(),
        ensures
            n == self@.guilds.len(),
    {
        self.cache.guild_count()
    }
}

} // verus!
