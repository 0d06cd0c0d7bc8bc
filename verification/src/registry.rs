//! The global registry round-trip.
//!
//! Global protocol objects are advertised asynchronously.  The resolver
//! converts that into a synchronous precondition: it services the dispatch
//! queue event by event, recording each advertised global, until the
//! compositor confirms that every global of this round has been advertised.
//! The result is an immutable snapshot; globals advertised after the
//! confirmation are not part of it.  While the round-trip is in flight only
//! the registry may receive events, so an event addressed to any other
//! object is a fatal internal inconsistency.

use vstd::prelude::*;
use crate::errors::FatalError;

verus! {

/// One global protocol object advertised by the compositor.
#[derive(Clone, Debug, PartialEq, Eq)]
pub struct GlobalEntry {
    /// Numeric name the compositor assigned to the global.
    pub name: u32,
    /// Interface the global implements.
    pub interface: String,
    /// Version the compositor advertises for the global.
    pub version: u32,
}

/// An event delivered on the dispatch queue while the round-trip is in
/// flight.
#[derive(Clone, Debug, PartialEq, Eq)]
pub enum QueueEvent {
    /// The registry advertises one global object.
    Global { name: u32, interface: String, version: u32 },
    /// The compositor confirms that every global of this round has been
    /// advertised.
    Done,
    /// An event addressed to an object that has no handler during the
    /// round-trip.
    Orphan,
}

/// An immutable snapshot of the globals advertised before the round-trip
/// completed, in advertisement order.
#[derive(Clone, Debug, PartialEq, Eq)]
pub struct GlobalSnapshot {
    /// The advertised globals, in the order they arrived.
    pub entries: Vec<GlobalEntry>,
}

/// The entry an instantiation request for `interface` addresses: the first
/// one advertising that interface.
pub open spec fn spec_lookup(globals: Seq<GlobalEntry>, interface: Seq<char>) -> Option<GlobalEntry>
    decreases globals.len(),
{
    if globals.len() == 0 {
        None
    } else if globals[0].interface@ == interface {
        Some(globals[0])
    } else {
        spec_lookup(globals.drop_first(), interface)
    }
}

/// Whether `interface` can be instantiated at exactly `version`: the first
/// global advertising it must offer at least that version.
pub open spec fn interface_supported(
    globals: Seq<GlobalEntry>,
    interface: Seq<char>,
    version: u32,
) -> bool {
    match spec_lookup(globals, interface) {
        Some(g) => g.version >= version,
        None => false,
    }
}

impl GlobalSnapshot {
    /// The advertised globals of this snapshot.
    pub open spec fn globals(self) -> Seq<GlobalEntry> {
        self.entries@
    }

    /// Whether this snapshot lets `interface` be instantiated at exactly
    /// `version`.
    pub open spec fn supports(self, interface: Seq<char>, version: u32) -> bool {
        interface_supported(self.entries@, interface, version)
    }

    /// Finds the entry an instantiation request for `interface` would
    /// address and returns its numeric name and advertised version.
    pub fn lookup(&self, interface: &String) -> (r: Option<(u32, u32)>)
        ensures
            r is Some <==> spec_lookup(self.entries@, interface@) is Some,
            r matches Some(p) ==> spec_lookup(self.entries@, interface@) matches Some(g)
                && g.name == p.0 && g.version == p.1,
    {
        let n = self.entries.len();
        proof {
            assert(self.entries@.skip(0) =~= self.entries@);
        }
        for i in 0..n
            invariant
                n == self.entries.len(),
                spec_lookup(self.entries@, interface@)
                    == spec_lookup(self.entries@.skip(i as int), interface@),
        {
            proof {
                assert(self.entries@.skip(i as int)[0] == self.entries@[i as int]);
            }
            if self.entries[i].interface == *interface {
                return Some((self.entries[i].name, self.entries[i].version));
            }
            proof {
                assert(self.entries@.skip(i as int).drop_first()
                    =~= self.entries@.skip(i + 1));
            }
        }
        None
    }
}

/// Outcome of the round-trip wait once `events` have been delivered:
/// `None` when the completion signal never arrives (the wait does not
/// return), otherwise the globals advertised before completion, in order,
/// or the fatal error raised by an orphan event.
pub open spec fn spec_round_trip(events: Seq<QueueEvent>) -> Option<
    Result<Seq<GlobalEntry>, FatalError>,
>
    decreases events.len(),
{
    if events.len() == 0 {
        None
    } else {
        match events[0] {
            QueueEvent::Done => Some(Ok(Seq::<GlobalEntry>::empty())),
            QueueEvent::Orphan => Some(Err(FatalError::UnexpectedEvent)),
            QueueEvent::Global { name, interface, version } => {
                match spec_round_trip(events.drop_first()) {
                    None => None,
                    Some(Err(e)) => Some(Err(e)),
                    Some(Ok(rest)) => Some(
                        Ok(seq![GlobalEntry { name, interface, version }] + rest),
                    ),
                }
            },
        }
    }
}

/// The round-trip outcome with the globals recorded so far put in front.
pub open spec fn spec_with_recorded(
    recorded: Seq<GlobalEntry>,
    rest: Option<Result<Seq<GlobalEntry>, FatalError>>,
) -> Option<Result<Seq<GlobalEntry>, FatalError>> {
    match rest {
        None => None,
        Some(Err(e)) => Some(Err(e)),
        Some(Ok(g)) => Some(Ok(recorded + g)),
    }
}

/// Runs the round-trip wait loop: services each queued event in order,
/// recording every advertised global, until the compositor confirms
/// completion.  An event addressed to any other object aborts the wait with
/// a fatal error.  The precondition mirrors the blocking nature of the wait:
/// it returns only on event sequences on which the wait actually ends, and
/// would otherwise block for as long as the compositor stays silent.
pub fn resolve(events: &Vec<QueueEvent>) -> (r: Result<GlobalSnapshot, FatalError>)
    requires
        spec_round_trip(events@) is Some,
    ensures
        match r {
            Ok(s) => spec_round_trip(events@) == Some(
                Ok::<Seq<GlobalEntry>, FatalError>(s.entries@),
            ),
            Err(e) => spec_round_trip(events@) == Some(
                Err::<Seq<GlobalEntry>, FatalError>(e),
            ),
        },
{
    let mut recorded: Vec<GlobalEntry> = Vec::new();
    let mut i: usize = 0;
    proof {
        assert(events@.skip(0) =~= events@);
        assert(recorded@ + spec_round_trip(events@)->Some_0->Ok_0 =~= spec_round_trip(events@)->Some_0->Ok_0);
    }
    loop
        invariant
            i <= events.len(),
            spec_round_trip(events@) is Some,
            spec_round_trip(events@) == spec_with_recorded(
                recorded@,
                spec_round_trip(events@.skip(i as int)),
            ),
        decreases events@.len() - i,
    {
        proof {
            assert(spec_round_trip(events@.skip(i as int)) is Some);
            assert(events@.skip(i as int).len() > 0);
            assert(events@.skip(i as int)[0] == events@[i as int]);
            assert(events@.skip(i as int).drop_first() =~= events@.skip(i as int + 1));
        }
        match &events[i] {
            QueueEvent::Done => {
                proof {
                    assert(recorded@ + Seq::<GlobalEntry>::empty() =~= recorded@);
                }
                return Ok(GlobalSnapshot { entries: recorded });
            },
            QueueEvent::Orphan => {
                return Err(FatalError::UnexpectedEvent);
            },
            QueueEvent::Global { name, interface, version } => {
                proof {
                    let ghost entry = GlobalEntry {
                        name: *name,
                        interface: *interface,
                        version: *version,
                    };
                    let ghost rest = spec_round_trip(events@.skip(i as int + 1));
                    match rest {
                        Some(Ok(g)) => {
                            assert((recorded@ + (seq![entry] + g)) =~= (recorded@
                                + seq![entry]) + g);
                        },
                        _ => {},
                    }
                }
                recorded.push(
                    GlobalEntry { name: *name, interface: interface.clone(), version: *version },
                );
                i = i + 1;
            },
        }
    }
}

/// Instantiation reads only the entries of the interface it asks for:
/// adding a global of a different interface to a snapshot changes no
/// lookup for that interface.  This is what makes the optional-capability
/// negotiations independent: a global advertised (or missing) for one
/// manager never affects the decision taken for the other.
pub proof fn lemma_foreign_global_preserves_lookup(
    globals: Seq<GlobalEntry>,
    extra: GlobalEntry,
    interface: Seq<char>,
)
    requires
        extra.interface@ != interface,
    ensures
        spec_lookup(globals.push(extra), interface) == spec_lookup(globals, interface),
    decreases globals.len(),
{
    if globals.len() == 0 {
        assert(globals.push(extra)[0] == extra);
        assert(globals.push(extra).drop_first() =~= Seq::<GlobalEntry>::empty());
        assert(spec_lookup(Seq::<GlobalEntry>::empty(), interface) is None);
        assert(spec_lookup(globals.push(extra), interface) is None);
    } else {
        assert(globals.push(extra)[0] == globals[0]);
        if globals[0].interface@ != interface {
            assert(globals.push(extra).drop_first() =~= globals.drop_first().push(extra));
            lemma_foreign_global_preserves_lookup(globals.drop_first(), extra, interface);
        }
    }
}

/// The support decision for an interface ignores globals of every other
/// interface.
pub proof fn lemma_foreign_global_preserves_support(
    globals: Seq<GlobalEntry>,
    extra: GlobalEntry,
    interface: Seq<char>,
    version: u32,
)
    requires
        extra.interface@ != interface,
    ensures
        interface_supported(globals.push(extra), interface, version) == interface_supported(
            globals,
            interface,
            version,
        ),
{
    lemma_foreign_global_preserves_lookup(globals, extra, interface);
}

/// Index of the completion signal: the first `Done` among `events`.
/// Meaningful only when a `Done` is present.
pub open spec fn completion_index(events: Seq<QueueEvent>) -> int
    decreases events.len(),
{
    if events.len() == 0 {
        0
    } else if events[0] is Done {
        0
    } else {
        1 + completion_index(events.drop_first())
    }
}

/// The globals advertised among `events`, in advertisement order.
pub open spec fn advertised(events: Seq<QueueEvent>) -> Seq<GlobalEntry>
    decreases events.len(),
{
    if events.len() == 0 {
        Seq::<GlobalEntry>::empty()
    } else {
        match events[0] {
            QueueEvent::Global { name, interface, version } => seq![
                GlobalEntry { name, interface, version },
            ] + advertised(events.drop_first()),
            _ => advertised(events.drop_first()),
        }
    }
}

/// A round-trip that completes cleanly yields exactly the globals advertised
/// before the completion signal, in order: every global advertised before it
/// is in the snapshot, and none advertised after it, and every event before
/// the completion signal was a global advertisement.
pub proof fn lemma_snapshot_is_pre_completion_advertisements(events: Seq<QueueEvent>)
    requires
        spec_round_trip(events) matches Some(Ok(_)),
    ensures
        0 <= completion_index(events) < events.len(),
        events[completion_index(events)] is Done,
        forall|j: int| 0 <= j < completion_index(events) ==> events[j] is Global,
        spec_round_trip(events) == Some(
            Ok::<Seq<GlobalEntry>, FatalError>(
                advertised(events.take(completion_index(events))),
            ),
        ),
    decreases events.len(),
{
    if events[0] is Done {
        assert(events.take(0) =~= Seq::<QueueEvent>::empty());
    } else {
        let rest = events.drop_first();
        lemma_snapshot_is_pre_completion_advertisements(rest);
        let ci = completion_index(events);
        assert(ci == 1 + completion_index(rest));
        assert(events.take(ci).len() == ci);
        assert(events.take(ci)[0] == events[0]);
        assert(events.take(ci).drop_first() =~= rest.take(ci - 1));
        assert(forall|j: int|
            0 <= j < ci ==> #[trigger] events[j] == if j == 0 {
                events[0]
            } else {
                rest[j - 1]
            });
    }
}

/// Events queued after the round-trip has ended, whether it completed or
/// failed, do not change its outcome: the snapshot ignores every global
/// advertised after the completion signal.
pub proof fn lemma_round_trip_ignores_later_events(
    events: Seq<QueueEvent>,
    later: Seq<QueueEvent>,
)
    requires
        spec_round_trip(events) is Some,
    ensures
        spec_round_trip(events + later) == spec_round_trip(events),
    decreases events.len(),
{
    assert(events.len() > 0);
    assert((events + later)[0] == events[0]);
    match events[0] {
        QueueEvent::Done => {},
        QueueEvent::Orphan => {},
        QueueEvent::Global { .. } => {
            assert((events + later).drop_first() =~= events.drop_first() + later);
            lemma_round_trip_ignores_later_events(events.drop_first(), later);
        },
    }
}

/// Round-trip resolution is idempotent: two rounds in which the compositor
/// advertises the same globals before signaling completion yield equal
/// snapshots, whatever else either round's queue carries afterward.
pub proof fn lemma_round_trip_idempotent(first: Seq<QueueEvent>, second: Seq<QueueEvent>)
    requires
        spec_round_trip(first) matches Some(Ok(_)),
        spec_round_trip(second) matches Some(Ok(_)),
        advertised(first.take(completion_index(first))) == advertised(
            second.take(completion_index(second)),
        ),
    ensures
        spec_round_trip(first) == spec_round_trip(second),
{
    lemma_snapshot_is_pre_completion_advertisements(first);
    lemma_snapshot_is_pre_completion_advertisements(second);
}

} // verus!
