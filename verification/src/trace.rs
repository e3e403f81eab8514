//! What holds of every course the startup sequence can take, whatever the
//! caller reports.

use vstd::prelude::*;
use crate::bootstrap::{
    spec_abort, spec_located, spec_start, spec_step, ActionView, BootstrapView, EventView,
    Settings, StageView,
};
use crate::locator::{
    decides_at, judge, search_gives, spec_locate_message, undecided, EngineLocationView,
    LocateErrorView, ScanEventView, ScanVerdictView,
};
use crate::matcher::set_matches;

verus! {

/// Where the sequence stands after `events`, and the actions it named on the
/// way, in order.
pub open spec fn spec_run(state: BootstrapView, events: Seq<EventView>) -> (
    BootstrapView,
    Seq<ActionView>,
)
    decreases events.len(),
{
    if events.len() == 0 {
        (state, Seq::empty())
    } else {
        let before = spec_run(state, events.drop_last());
        let after = spec_step(before.0, events.last());
        (after.0, before.1.push(after.1))
    }
}

/// Whether the entry point was reached: it is running, has returned, or the
/// sequence has ended without it.
pub open spec fn is_past_entry(stage: StageView) -> bool {
    stage is Running || stage is Finished || stage is Failed
}

/// Whether the action belongs to the walk over the engine directory.
pub open spec fn is_scan_action(action: ActionView) -> bool {
    action is BeginScan || action is NextEntry
}

/// Whether the event is a visited entry that matches `patterns`.
pub open spec fn is_matching_entry(patterns: Seq<Seq<char>>, event: EventView) -> bool {
    match event {
        EventView::Scanned(ScanEventView::Entry(path)) => set_matches(patterns, path),
        _ => false,
    }
}

/// A step keeps the settings. It names the entry point's call only on the way
/// from resolving it to running it, with the port and the flag of the
/// settings; and once the entry point was reached, no step goes back.
pub proof fn step_guards_entry(state: BootstrapView, event: EventView)
    ensures
        spec_step(state, event).0.settings == state.settings,
        spec_step(state, event).1 is Invoke ==> {
            &&& state.stage is ResolvingEntry
            &&& spec_step(state, event).0.stage is Running
            &&& spec_step(state, event).1->Invoke_port == state.settings.port
            &&& spec_step(state, event).1->Invoke_multi_session == state.settings.multi_session
        },
        is_past_entry(state.stage) ==> is_past_entry(spec_step(state, event).0.stage),
{
}

/// The run keeps the settings and the length of what it was fed.
pub proof fn run_keeps_settings(state: BootstrapView, events: Seq<EventView>)
    ensures
        spec_run(state, events).0.settings == state.settings,
        spec_run(state, events).1.len() == events.len(),
    decreases events.len(),
{
    if events.len() > 0 {
        run_keeps_settings(state, events.drop_last());
        step_guards_entry(spec_run(state, events.drop_last()).0, events.last());
    }
}

/// Whatever the caller reports, the entry point is called at most once, and
/// then with the port and the multi-session flag that the sequence was
/// started with; and once it was called, the sequence is past it.
pub proof fn entry_is_invoked_at_most_once(state: BootstrapView, events: Seq<EventView>)
    ensures
        forall|i: int, j: int|
            0 <= i < events.len() && 0 <= j < events.len() && (#[trigger] spec_run(
                state,
                events,
            ).1[i]) is Invoke && (#[trigger] spec_run(state, events).1[j]) is Invoke ==> i == j,
        forall|i: int|
            0 <= i < events.len() && (#[trigger] spec_run(state, events).1[i]) is Invoke ==> {
                &&& spec_run(state, events).1[i]->Invoke_port == state.settings.port
                &&& spec_run(state, events).1[i]->Invoke_multi_session
                    == state.settings.multi_session
                &&& is_past_entry(spec_run(state, events).0.stage)
                &&& !is_past_entry(state.stage)
            },
    decreases events.len(),
{
    run_keeps_settings(state, events);
    if events.len() > 0 {
        let shorter = events.drop_last();
        let before = spec_run(state, shorter);
        let after = spec_step(before.0, events.last());
        let actions = spec_run(state, events).1;
        entry_is_invoked_at_most_once(state, shorter);
        run_keeps_settings(state, shorter);
        step_guards_entry(before.0, events.last());
        past_entry_stays(state, shorter);
        assert forall|i: int| 0 <= i < shorter.len() implies actions[i] == before.1[i] by {}
        assert(actions[shorter.len() as int] == after.1);
    }
}

/// Once the entry point was reached, the sequence stays past it and never
/// names its call again.
pub proof fn past_entry_stays(state: BootstrapView, events: Seq<EventView>)
    ensures
        is_past_entry(state.stage) ==> is_past_entry(spec_run(state, events).0.stage),
        is_past_entry(state.stage) ==> forall|i: int|
            0 <= i < events.len() ==> !((#[trigger] spec_run(state, events).1[i]) is Invoke),
    decreases events.len(),
{
    run_keeps_settings(state, events);
    if events.len() > 0 {
        let shorter = events.drop_last();
        let before = spec_run(state, shorter);
        past_entry_stays(state, shorter);
        run_keeps_settings(state, shorter);
        step_guards_entry(before.0, events.last());
        let actions = spec_run(state, events).1;
        assert forall|i: int| 0 <= i < shorter.len() implies actions[i] == before.1[i] by {}
    }
}

/// A sequence that is over stays as it is and names nothing more to do.
pub proof fn end_is_final(state: BootstrapView, events: Seq<EventView>)
    requires
        state.stage is Finished || state.stage is Failed,
    ensures
        spec_run(state, events).0 == state,
        forall|i: int|
            0 <= i < events.len() ==> (#[trigger] spec_run(state, events).1[i]) == ActionView::Stop,
    decreases events.len(),
{
    run_keeps_settings(state, events);
    if events.len() > 0 {
        let shorter = events.drop_last();
        end_is_final(state, shorter);
        run_keeps_settings(state, shorter);
        let actions = spec_run(state, events).1;
        assert forall|i: int| 0 <= i < shorter.len() implies actions[i] == spec_run(
            state,
            shorter,
        ).1[i] by {}
    }
}

/// A step never begins a walk, and asks for the walk's next entry only while
/// the engine directory is being searched; no step enters that search.
pub proof fn step_guards_scan(state: BootstrapView, event: EventView)
    ensures
        !(spec_step(state, event).1 is BeginScan),
        spec_step(state, event).1 is NextEntry ==> state.stage is Scanning,
        spec_step(state, event).0.stage is Scanning ==> state.stage is Scanning,
{
}

/// Once the engine directory is no longer searched, no action belongs to the
/// walk.
pub proof fn search_is_not_resumed(state: BootstrapView, events: Seq<EventView>)
    requires
        !(state.stage is Scanning),
    ensures
        !(spec_run(state, events).0.stage is Scanning),
        forall|i: int|
            0 <= i < events.len() ==> !is_scan_action(#[trigger] spec_run(state, events).1[i]),
    decreases events.len(),
{
    run_keeps_settings(state, events);
    if events.len() > 0 {
        let shorter = events.drop_last();
        let before = spec_run(state, shorter);
        search_is_not_resumed(state, shorter);
        run_keeps_settings(state, shorter);
        step_guards_scan(before.0, events.last());
        let actions = spec_run(state, events).1;
        assert forall|i: int| 0 <= i < shorter.len() implies actions[i] == before.1[i] by {}
    }
}

/// For an engine given as a file, no directory is ever walked: neither the
/// first action nor any later one belongs to a walk, whatever the caller
/// reports.
pub proof fn direct_file_is_never_scanned(
    path: Seq<char>,
    settings: Settings,
    events: Seq<EventView>,
)
    ensures
        !is_scan_action(spec_start(EngineLocationView::File(path), settings).1),
        forall|i: int|
            0 <= i < events.len() ==> !is_scan_action(
                #[trigger] spec_run(
                    spec_start(EngineLocationView::File(path), settings).0,
                    events,
                ).1[i],
            ),
{
    let begun = spec_start(EngineLocationView::File(path), settings);
    search_is_not_resumed(begun.0, events);
}

/// While the engine directory is searched and no visited entry matches, a
/// step keeps searching or gives up: it loads nothing.
pub proof fn step_without_match(state: BootstrapView, event: EventView)
    requires
        state.stage is Scanning || state.stage is Failed,
        state.stage is Scanning ==> !is_matching_entry(state.stage->Scanning_patterns, event),
    ensures
        spec_step(state, event).0.stage == state.stage || spec_step(state, event).0.stage is Failed,
        spec_step(state, event).1 is NextEntry || spec_step(state, event).1 is Abort || spec_step(
            state,
            event,
        ).1 is Stop,
        state.stage is Scanning && !(event is Scanned) ==> spec_step(state, event).0.stage is Failed,
        state.stage is Scanning && event is ScanEnded ==> spec_step(state, event).1
            == (ActionView::Abort {
            message: spec_locate_message(
                LocateErrorView::NotFound { root: state.stage->Scanning_root },
            ),
        }),
{
}

/// Where the walk over the engine directory visits no entry that matches,
/// nothing is ever loaded, resolved or called, whatever else the caller
/// reports: every action asks for the walk's next entry, gives the sequence up
/// or, after that, is none.
pub proof fn unmatched_search_loads_nothing(
    state: BootstrapView,
    events: Seq<EventView>,
)
    requires
        state.stage is Scanning,
        forall|i: int|
            0 <= i < events.len() ==> !is_matching_entry(
                state.stage->Scanning_patterns,
                #[trigger] events[i],
            ),
    ensures
        spec_run(state, events).0.stage == state.stage || spec_run(state, events).0.stage is Failed,
        forall|i: int|
            0 <= i < events.len() ==> {
                let action = #[trigger] spec_run(state, events).1[i];
                action is NextEntry || action is Abort || action is Stop
            },
        forall|i: int|
            0 <= i < events.len() && !(#[trigger] events[i] is Scanned) ==> spec_run(
                state,
                events,
            ).0.stage is Failed,
    decreases events.len(),
{
    run_keeps_settings(state, events);
    if events.len() > 0 {
        let shorter = events.drop_last();
        let before = spec_run(state, shorter);
        assert forall|i: int| 0 <= i < shorter.len() implies !is_matching_entry(
            state.stage->Scanning_patterns,
            #[trigger] shorter[i],
        ) by {
            assert(shorter[i] == events[i]);
        }
        unmatched_search_loads_nothing(state, shorter);
        run_keeps_settings(state, shorter);
        assert(!is_matching_entry(state.stage->Scanning_patterns, events[events.len() - 1]));
        step_without_match(before.0, events.last());
        let actions = spec_run(state, events).1;
        assert forall|i: int| 0 <= i < shorter.len() implies actions[i] == before.1[i] by {}
        assert forall|i: int| 0 <= i < events.len() && !(#[trigger] events[i] is Scanned) implies spec_run(
            state,
            events,
        ).0.stage is Failed by {
            if i < shorter.len() {
                assert(shorter[i] == events[i]);
            }
        }
    }
}

/// The events of a walk as the sequence is told of them.
pub open spec fn scanned(events: Seq<ScanEventView>) -> Seq<EventView> {
    events.map_values(|e: ScanEventView| EventView::Scanned(e))
}

/// Whether the sequence, told `told`, ends where `result` says and names
/// `result`'s action last.
pub open spec fn run_ends_with(
    state: BootstrapView,
    told: Seq<EventView>,
    result: (BootstrapView, ActionView),
) -> bool {
    &&& told.len() > 0
    &&& spec_run(state, told).0 == result.0
    &&& spec_run(state, told).1.last() == result.1
}

/// While the walk produces nothing that decides the search, the sequence
/// stays where it is and asks for the next entry each time.
pub proof fn undecided_walk_keeps_searching(state: BootstrapView, events: Seq<ScanEventView>)
    requires
        state.stage is Scanning,
        undecided(state.stage->Scanning_patterns, events),
    ensures
        spec_run(state, scanned(events)).0 == state,
        forall|i: int|
            0 <= i < events.len() ==> (#[trigger] spec_run(state, scanned(events)).1[i])
                == ActionView::NextEntry,
    decreases events.len(),
{
    run_keeps_settings(state, scanned(events));
    if events.len() > 0 {
        let shorter = events.drop_last();
        assert(scanned(events).drop_last() =~= scanned(shorter));
        assert forall|j: int| 0 <= j < shorter.len() implies judge(
            state.stage->Scanning_patterns,
            #[trigger] shorter[j],
        ) == ScanVerdictView::Continue by {
            assert(shorter[j] == events[j]);
        }
        undecided_walk_keeps_searching(state, shorter);
        run_keeps_settings(state, scanned(shorter));
        assert(scanned(events).last() == EventView::Scanned(events[events.len() - 1]));
        assert(judge(state.stage->Scanning_patterns, events[events.len() - 1])
            == ScanVerdictView::Continue);
        let actions = spec_run(state, scanned(events)).1;
        assert forall|i: int| 0 <= i < shorter.len() implies actions[i] == spec_run(
            state,
            scanned(shorter),
        ).1[i] by {}
    }
}

/// The sequence searches a directory as `locate` does. Where the search of
/// `events` gives a path, the sequence, told the walk up to that entry, goes
/// on as it does for an engine at that path. Where the search fails, the
/// sequence, told the walk up to the failure, or the whole walk and its end,
/// gives up with the failure's message.
pub proof fn sequence_searches_as_locate(
    state: BootstrapView,
    events: Seq<ScanEventView>,
    outcome: Result<Seq<char>, LocateErrorView>,
)
    requires
        state.stage is Scanning,
        search_gives(
            state.stage->Scanning_patterns,
            state.stage->Scanning_root,
            events,
            outcome,
        ),
    ensures
        match outcome {
            Ok(path) => exists|n: int|
                0 < n <= events.len() && #[trigger] run_ends_with(
                    state,
                    scanned(events.take(n)),
                    spec_located(state.settings, path),
                ),
            Err(LocateErrorView::NotFound { root }) => run_ends_with(
                state,
                scanned(events).push(EventView::ScanEnded),
                spec_abort(state.settings, spec_locate_message(LocateErrorView::NotFound { root })),
            ),
            Err(error) => exists|n: int|
                0 < n <= events.len() && #[trigger] run_ends_with(
                    state,
                    scanned(events.take(n)),
                    spec_abort(state.settings, spec_locate_message(error)),
                ),
        },
{
    let patterns = state.stage->Scanning_patterns;
    match outcome {
        Err(LocateErrorView::NotFound { root }) => {
            let told = scanned(events).push(EventView::ScanEnded);
            undecided_walk_keeps_searching(state, events);
            assert(told.drop_last() =~= scanned(events));
            assert(told.last() == EventView::ScanEnded);
        },
        Err(LocateErrorView::Pattern(_)) => {},
        _ => {
            let i = choose|i: int| decides_at(patterns, events, i) && (match outcome {
                Ok(path) => events[i] == ScanEventView::Entry(path),
                Err(LocateErrorView::ReadFailed { diagnostic }) => events[i]
                    == ScanEventView::Failure(diagnostic),
                _ => false,
            });
            let before = events.take(i);
            let upto = events.take(i + 1);
            assert forall|j: int| 0 <= j < before.len() implies judge(
                patterns,
                #[trigger] before[j],
            ) == ScanVerdictView::Continue by {
                assert(before[j] == events[j]);
            }
            undecided_walk_keeps_searching(state, before);
            assert(scanned(upto).drop_last() =~= scanned(before));
            assert(scanned(upto).last() == EventView::Scanned(events[i]));
            match outcome {
                Ok(path) => {
                    assert(run_ends_with(
                        state,
                        scanned(events.take(i + 1)),
                        spec_located(state.settings, path),
                    ));
                },
                Err(error) => {
                    assert(run_ends_with(
                        state,
                        scanned(events.take(i + 1)),
                        spec_abort(state.settings, spec_locate_message(error)),
                    ));
                },
            }
        },
    }
}

} // verus!
