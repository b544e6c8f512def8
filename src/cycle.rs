use vstd::prelude::*;
use crate::driver::{next_phase, ActionView, Driver, Event, Phase};
use crate::watcher::Timestamp;

verus! {

/// The phases passed through as `events` arrive in order, starting in `phase`.
pub open spec fn phases_after(phase: Phase, events: Seq<Event>) -> Seq<Phase>
    decreases events.len(),
{
    if events.len() == 0 {
        seq![]
    } else {
        let q = next_phase(phase, events[0]);
        seq![q] + phases_after(q, events.drop_first())
    }
}

/// The phase reached once all of `events` have arrived.
pub open spec fn phase_after(phase: Phase, events: Seq<Event>) -> Phase
    decreases events.len(),
{
    if events.len() == 0 {
        phase
    } else {
        phase_after(next_phase(phase, events[0]), events.drop_first())
    }
}

/// The driver after one event.
pub open spec fn driver_after(d: Driver, event: Event) -> Driver {
    Driver {
        phase: next_phase(d.phase, event),
        profile: d.profile,
        directory: d.directory,
        package: d.package,
        platform: d.platform,
    }
}

/// How many unload actions a list of actions holds.
pub open spec fn count_unloads(s: Seq<ActionView>) -> nat
    decreases s.len(),
{
    if s.len() == 0 {
        0
    } else {
        (if s[0] is Unload { 1nat } else { 0nat }) + count_unloads(s.drop_first())
    }
}

/// How many unload actions the driver asks for over `events`.
pub open spec fn unloads_after(d: Driver, events: Seq<Event>) -> nat
    decreases events.len(),
{
    if events.len() == 0 {
        0
    } else {
        count_unloads(d.actions_spec(events[0])) + unloads_after(driver_after(d, events[0]), events.drop_first())
    }
}

/// How many loaded modules the driver takes in over `events`.
pub open spec fn loads_after(phase: Phase, events: Seq<Event>) -> nat
    decreases events.len(),
{
    if events.len() == 0 {
        0
    } else {
        (if phase is Loading && events[0] is ModuleLoaded { 1nat } else { 0nat })
            + loads_after(next_phase(phase, events[0]), events.drop_first())
    }
}

/// A loaded module is held in this phase.
pub open spec fn holds_module(phase: Phase) -> bool {
    phase is Invoking
}

/// The part of a cycle after a successful build: loading and calling.
pub open spec fn in_load_part(phase: Phase) -> bool {
    phase is Loading || phase is Invoking
}

/// The part of a cycle after a failed build: waiting for a change.
pub open spec fn in_wait_part(phase: Phase) -> bool {
    phase is Capturing || phase is Waiting
}

proof fn lemma_load_part_ends_cleanly(phase: Phase, events: Seq<Event>)
    requires
        in_load_part(phase),
    ensures
        forall|i: int|
            0 <= i < phases_after(phase, events).len() && (forall|j: int|
                0 <= j < i ==> in_load_part(#[trigger] phases_after(phase, events)[j])) ==> {
                let p = #[trigger] phases_after(phase, events)[i];
                in_load_part(p) || p is Idle || p is Halted
            },
    decreases events.len(),
{
    if events.len() > 0 {
        let q = next_phase(phase, events[0]);
        let rest = events.drop_first();
        let ps = phases_after(phase, events);
        assert(ps == seq![q] + phases_after(q, rest));
        assert(ps[0] == q);
        if in_load_part(q) {
            lemma_load_part_ends_cleanly(q, rest);
        }
        assert forall|i: int|
            0 <= i < ps.len() && (forall|j: int| 0 <= j < i ==> in_load_part(#[trigger] ps[j])) implies {
            let p = #[trigger] ps[i];
            in_load_part(p) || p is Idle || p is Halted
        } by {
            if i > 0 {
                assert(in_load_part(ps[0]));
                assert(ps[i] == phases_after(q, rest)[i - 1]);
                assert forall|j: int| 0 <= j < i - 1 implies in_load_part(#[trigger] phases_after(q, rest)[j]) by {
                    assert(ps[j + 1] == phases_after(q, rest)[j]);
                }
            }
        }
    }
}

/// After a build that succeeded, the cycle loads and calls the module and
/// then ends (or halts on a load failure): until it ends, it never waits for
/// a change.
pub proof fn lemma_successful_build_never_waits(d: Driver, result_event: Event, events: Seq<Event>)
    requires
        d.phase is Building,
        result_event is BuildFinished,
        result_event->BuildFinished_0.succeeded,
    ensures
        next_phase(d.phase, result_event) == Phase::Loading,
        d.actions_spec(result_event).last() is Load,
        forall|i: int| 0 <= i < d.actions_spec(result_event).len()
            ==> !(#[trigger] d.actions_spec(result_event)[i] is CaptureBaseline),
        forall|i: int|
            0 <= i < phases_after(Phase::Loading, events).len() && (forall|j: int|
                0 <= j < i ==> in_load_part(#[trigger] phases_after(Phase::Loading, events)[j])) ==> {
                let p = #[trigger] phases_after(Phase::Loading, events)[i];
                !in_wait_part(p)
            },
{
    lemma_load_part_ends_cleanly(Phase::Loading, events);
}

proof fn lemma_wait_part_only_rebuilds(phase: Phase, events: Seq<Event>)
    requires
        in_wait_part(phase),
    ensures
        forall|i: int|
            0 <= i < phases_after(phase, events).len() && (forall|j: int|
                0 <= j < i ==> in_wait_part(#[trigger] phases_after(phase, events)[j])) ==> {
                let p = #[trigger] phases_after(phase, events)[i];
                in_wait_part(p) || p is Building
            },
    decreases events.len(),
{
    if events.len() > 0 {
        let q = next_phase(phase, events[0]);
        let rest = events.drop_first();
        let ps = phases_after(phase, events);
        assert(ps == seq![q] + phases_after(q, rest));
        assert(ps[0] == q);
        if in_wait_part(q) {
            lemma_wait_part_only_rebuilds(q, rest);
        }
        assert forall|i: int|
            0 <= i < ps.len() && (forall|j: int| 0 <= j < i ==> in_wait_part(#[trigger] ps[j])) implies {
            let p = #[trigger] ps[i];
            in_wait_part(p) || p is Building
        } by {
            if i > 0 {
                assert(in_wait_part(ps[0]));
                assert(ps[i] == phases_after(q, rest)[i - 1]);
                assert forall|j: int| 0 <= j < i - 1 implies in_wait_part(#[trigger] phases_after(q, rest)[j]) by {
                    assert(ps[j + 1] == phases_after(q, rest)[j]);
                }
            }
        }
    }
}

/// A load is asked for only on a successful build's result.
pub proof fn lemma_load_only_after_success(d: Driver, event: Event)
    ensures
        (exists|i: int| 0 <= i < d.actions_spec(event).len() && #[trigger] d.actions_spec(event)[i] is Load)
            ==> d.phase is Building && event is BuildFinished && event->BuildFinished_0.succeeded,
{
}

/// After a build that failed, the driver reads the baseline and waits; it
/// goes nowhere but back to building, so no module is loaded before the next
/// build.
pub proof fn lemma_failed_build_waits(d: Driver, result_event: Event, events: Seq<Event>)
    requires
        d.phase is Building,
        result_event is BuildFinished,
        !result_event->BuildFinished_0.succeeded,
    ensures
        next_phase(d.phase, result_event) == Phase::Capturing,
        d.actions_spec(result_event).last() == ActionView::CaptureBaseline,
        forall|i: int| 0 <= i < d.actions_spec(result_event).len() ==> !(#[trigger] d.actions_spec(result_event)[i] is Load),
        forall|i: int|
            0 <= i < phases_after(Phase::Capturing, events).len() && (forall|j: int|
                0 <= j < i ==> in_wait_part(#[trigger] phases_after(Phase::Capturing, events)[j])) ==> {
                let p = #[trigger] phases_after(Phase::Capturing, events)[i];
                in_wait_part(p) || p is Building
            },
{
    lemma_wait_part_only_rebuilds(Phase::Capturing, events);
}

proof fn lemma_count_unloads_prepend(a: ActionView, s: Seq<ActionView>)
    ensures
        count_unloads(seq![a] + s) == (if a is Unload { 1nat } else { 0nat }) + count_unloads(s),
{
    assert((seq![a] + s).drop_first() =~= s);
}

proof fn lemma_count_unloads_empty()
    ensures
        count_unloads(Seq::<ActionView>::empty()) == 0,
{
}

/// The number of unload actions of one step: one when the step leaves the
/// phase that holds a module, none otherwise.
proof fn lemma_step_unloads(d: Driver, event: Event)
    ensures
        count_unloads(d.actions_spec(event)) == (if holds_module(d.phase) && !holds_module(next_phase(d.phase, event)) {
            1nat
        } else {
            0nat
        }),
{
    let s = d.actions_spec(event);
    let e = Seq::<ActionView>::empty();
    lemma_count_unloads_empty();
    if s.len() == 1 {
        lemma_count_unloads_prepend(s[0], e);
        assert(s =~= seq![s[0]] + e);
    } else if s.len() == 2 {
        lemma_count_unloads_prepend(s[1], e);
        lemma_count_unloads_prepend(s[0], seq![s[1]] + e);
        assert(s =~= seq![s[0]] + (seq![s[1]] + e));
    } else if s.len() == 5 {
        let t4 = seq![s[4]] + e;
        let t3 = seq![s[3]] + t4;
        let t2 = seq![s[2]] + t3;
        let t1 = seq![s[1]] + t2;
        lemma_count_unloads_prepend(s[4], e);
        lemma_count_unloads_prepend(s[3], t4);
        lemma_count_unloads_prepend(s[2], t3);
        lemma_count_unloads_prepend(s[1], t2);
        lemma_count_unloads_prepend(s[0], t1);
        assert(s =~= seq![s[0]] + t1);
    }
}

/// Each call of the entry point ends with exactly one unload, whatever it
/// gave: success, a failure message, or no entry point at all. After it the
/// cycle is over and no module is held.
pub proof fn lemma_entry_outcome_unloads_once(d: Driver, event: Event)
    requires
        d.phase is Invoking,
        event is EntryReturned || event is EntryMissing,
    ensures
        next_phase(d.phase, event) == Phase::Idle,
        !holds_module(next_phase(d.phase, event)),
        count_unloads(d.actions_spec(event)) == 1,
        d.actions_spec(event).last() == ActionView::Unload,
{
    lemma_step_unloads(d, event);
}

/// Over any run of events, every module taken in is unloaded once: the
/// unloads asked for plus a module still held at the end equal the modules
/// taken in plus a module held at the start. No unload comes without a
/// load, and none comes twice.
pub proof fn lemma_unloads_match_loads(d: Driver, events: Seq<Event>)
    ensures
        unloads_after(d, events) + (if holds_module(phase_after(d.phase, events)) { 1nat } else { 0nat })
            == loads_after(d.phase, events) + (if holds_module(d.phase) { 1nat } else { 0nat }),
    decreases events.len(),
{
    if events.len() > 0 {
        lemma_step_unloads(d, events[0]);
        lemma_unloads_match_loads(driver_after(d, events[0]), events.drop_first());
    }
}

/// The change watcher: a poll that reads no timestamp, or one that is not
/// later than the baseline, keeps waiting against the same baseline and asks
/// for one more poll; the first poll that reads a later timestamp ends the
/// wait and starts a build.
pub proof fn lemma_watcher_waits_for_change(d: Driver, baseline: Timestamp, observed: Option<Timestamp>)
    requires
        d.phase == (Phase::Waiting { baseline }),
    ensures
        (observed is Some && observed->0.later_spec(baseline)) ==> next_phase(d.phase, Event::Polled(observed))
            == Phase::Building,
        !(observed is Some && observed->0.later_spec(baseline)) ==> next_phase(d.phase, Event::Polled(observed))
            == d.phase && d.actions_spec(Event::Polled(observed)) == seq![ActionView::SleepThenPoll],
{
}

} // verus!
