//! What holds of the picker over whole runs: one match computation at a time,
//! a selection that stays in bounds, and confirmations that are delivered
//! exactly once.

use crate::effect::EffectView;
use crate::host::{
    lemma_perform_concat, lemma_perform_four, lemma_perform_one, lemma_perform_three,
    lemma_perform_two, HostView,
};
use crate::model::{ContainerKind, EditorEventView, PickerView, Step};
use crate::selection::Matches;
use vstd::prelude::*;

verus! {

/// The confirmation that `picker` holds back, as the list of flags it will deliver.
pub open spec fn deferred_flags(picker: PickerView) -> Seq<bool> {
    match picker.confirm_on_update {
        Some(secondary) => seq![secondary],
        None => Seq::empty(),
    }
}

/// The index that a faithful delegate holds selected once the selection
/// came to rest after a change of the matches.
pub open spec fn selected_after_reclamp(host: HostView, matches: Matches) -> usize {
    match matches.spec_clamped() {
        Some(index) => index,
        None => host.selected_index,
    }
}

/// What a faithful host holds after the selection came to rest.
pub proof fn lemma_perform_reclamp(picker: PickerView, host: HostView, matches: Matches)
    ensures
        host.perform_all(picker.reclamp(matches)) == (HostView {
            selected_index: selected_after_reclamp(host, matches),
            ..host
        }),
{
    if let Some(index) = matches.spec_clamped() {
        lemma_perform_two(
            host,
            EffectView::SetSelectedIndex { index },
            picker.scroll_to_item_index(index),
        );
    }
}

/// What a faithful host holds after the view was brought in line with the
/// matches while the pending update stays pending: the selection rests on a
/// valid index, and no confirmation reaches the delegate.
pub proof fn lemma_perform_reconcile(picker: PickerView, host: HostView, matches: Matches)
    ensures
        host.perform_all(picker.reconcile(matches).effects) == (HostView {
            selected_index: selected_after_reclamp(host, matches),
            ..host
        }),
{
    let reset = picker.reset_list(matches);
    let reclamp = picker.reclamp(matches);
    lemma_perform_concat(host, reset + reclamp, seq![EffectView::Notify]);
    lemma_perform_concat(host, reset, reclamp);
    lemma_perform_one(host, EffectView::ResetList { item_count: matches.count });
    let h1 = host.perform_all(reset);
    assert(h1 == host);
    lemma_perform_reclamp(picker, h1, matches);
    lemma_perform_one(h1.perform_all(reclamp), EffectView::Notify);
}

/// What a faithful host holds after the view was brought in line with the
/// matches and the pending update was dropped.
pub proof fn lemma_perform_matches_updated(picker: PickerView, host: HostView, matches: Matches)
    ensures
        host.perform_all(picker.matches_updated(matches).effects) == (HostView {
            live: match picker.pending {
                Some(update) => host.live.remove(update),
                None => host.live,
            },
            selected_index: selected_after_reclamp(host, matches),
            confirms: host.confirms + deferred_flags(picker),
            ..host
        }),
{
    let reset = picker.reset_list(matches);
    let reclamp = picker.reclamp(matches);
    let cancel = picker.cancel_pending();
    let confirm = picker.deferred_confirm();
    let notify = seq![EffectView::Notify];
    lemma_perform_concat(host, reset + reclamp + cancel + confirm, notify);
    lemma_perform_concat(host, reset + reclamp + cancel, confirm);
    lemma_perform_concat(host, reset + reclamp, cancel);
    lemma_perform_concat(host, reset, reclamp);
    lemma_perform_one(host, EffectView::ResetList { item_count: matches.count });
    let h1 = host.perform_all(reset);
    assert(h1 == host);
    lemma_perform_reclamp(picker, h1, matches);
    let h2 = h1.perform_all(reclamp);
    if let Some(update) = picker.pending {
        lemma_perform_one(h2, EffectView::CancelUpdate { update });
    }
    let h3 = h2.perform_all(cancel);
    if let Some(secondary) = picker.confirm_on_update {
        lemma_perform_one(h3, EffectView::Confirm { secondary });
        assert(host.confirms + seq![secondary] =~= host.confirms.push(secondary));
    } else {
        assert(host.confirms + Seq::<bool>::empty() =~= host.confirms);
    }
    let h4 = h3.perform_all(confirm);
    lemma_perform_one(h4, EffectView::Notify);
}

/// What a faithful host holds after an update for `query` superseded the pending one.
pub proof fn lemma_perform_update_matches(picker: PickerView, host: HostView, query: Seq<char>)
    ensures
        host.perform_all(picker.update_matches(query).effects) == (HostView {
            live: (match picker.pending {
                Some(update) => host.live.remove(update),
                None => host.live,
            }).insert(picker.next_update),
            queries: host.queries.insert(picker.next_update, query),
            ..host
        }),
{
    let cancel = picker.cancel_pending();
    let start = EffectView::StartUpdate { update: picker.next_update, query };
    lemma_perform_concat(host, cancel, seq![start]);
    if let Some(update) = picker.pending {
        lemma_perform_one(host, EffectView::CancelUpdate { update });
    }
    lemma_perform_one(host.perform_all(cancel), start);
}

/// What a faithful host holds after a confirm was settled.
pub proof fn lemma_perform_confirm_finalized(
    picker: PickerView,
    host: HostView,
    secondary: bool,
    finalized: bool,
)
    ensures
        host.perform_all(picker.confirm_finalized(secondary, finalized).effects) == if picker.pending
            is Some && !finalized {
            host
        } else {
            HostView {
                live: match picker.pending {
                    Some(update) => host.live.remove(update),
                    None => host.live,
                },
                confirms: host.confirms.push(secondary),
                ..host
            }
        },
{
    if !(picker.pending is Some && !finalized) {
        let cancel = picker.cancel_pending();
        lemma_perform_concat(host, cancel, seq![EffectView::Confirm { secondary }]);
        if let Some(update) = picker.pending {
            lemma_perform_one(host, EffectView::CancelUpdate { update });
        }
        lemma_perform_one(host.perform_all(cancel), EffectView::Confirm { secondary });
    }
}

/// Every operation keeps a well-formed picker well formed, and a new picker is well formed.
pub proof fn lemma_well_formed_is_kept(
    picker: PickerView,
    query: Seq<char>,
    update: u64,
    matches: Matches,
    secondary: bool,
    finalized: bool,
    selected: Option<Seq<char>>,
    event: EditorEventView,
    container: ContainerKind,
    searchable: bool,
)
    requires
        picker.wf(),
    ensures
        PickerView::new(container, searchable).next.wf(),
        picker.update_matches(query).next.wf(),
        picker.update_started(update, matches).next.wf(),
        picker.update_completed(update, matches).next.wf(),
        picker.matches_updated(matches).next.wf(),
        picker.confirm().next.wf(),
        picker.secondary_confirm().next.wf(),
        picker.confirm_finalized(secondary, finalized).next.wf(),
        picker.set_query(query).next.wf(),
        picker.use_selected_query(selected).next.wf(),
        picker.query is Some ==> picker.on_input_editor_event(event).next.wf(),
        picker.refresh().next.wf(),
        picker.toggle_include_ignored().next.wf(),
        picker.teardown().next.wf(),
{
}

/// The update that `update_matches` starts is not the one that it supersedes.
pub proof fn lemma_started_update_is_fresh(picker: PickerView, query: Seq<char>)
    requires
        picker.wf(),
    ensures
        picker.update_matches(query).next.pending == Some(picker.next_update),
        picker.pending != Some(picker.next_update),
{
}

/// A new update drops the pending one before it starts its own match
/// computation: the request to drop comes first, the request to start last.
pub proof fn lemma_update_drops_before_it_starts(picker: PickerView, query: Seq<char>)
    ensures
        picker.update_matches(query).effects == match picker.pending {
            Some(pending) => seq![
                EffectView::CancelUpdate { update: pending },
                EffectView::StartUpdate { update: picker.next_update, query },
            ],
            None => seq![EffectView::StartUpdate { update: picker.next_update, query }],
        },
{
    let effects = picker.update_matches(query).effects;
    match picker.pending {
        Some(pending) => {
            assert(effects =~= seq![
                EffectView::CancelUpdate { update: pending },
                EffectView::StartUpdate { update: picker.next_update, query },
            ]);
        },
        None => {
            assert(effects =~= seq![EffectView::StartUpdate { update: picker.next_update, query }]);
        },
    }
}

/// A report about an update that is not the pending one changes nothing and
/// asks for nothing: what a superseded match computation says is ignored.
pub proof fn lemma_stale_reports_are_ignored(picker: PickerView, update: u64, matches: Matches)
    requires
        picker.pending != Some(update),
    ensures
        picker.update_started(update, matches) == (Step { next: picker, effects: Seq::empty() }),
        picker.update_completed(update, matches) == (Step { next: picker, effects: Seq::empty() }),
{
}

/// At most one match computation runs, and it is that of the pending update:
/// where this holds before an operation, it holds after the host carried out
/// what the operation asked for.
pub proof fn lemma_one_update_at_a_time(
    picker: PickerView,
    host: HostView,
    query: Seq<char>,
    update: u64,
    matches: Matches,
    secondary: bool,
    finalized: bool,
    selected: Option<Seq<char>>,
    event: EditorEventView,
    index: usize,
)
    requires
        picker.wf(),
        host.runs_only_pending(picker),
    ensures
        host.perform_all(picker.update_matches(query).effects).runs_only_pending(
            picker.update_matches(query).next,
        ),
        host.perform_all(picker.update_started(update, matches).effects).runs_only_pending(
            picker.update_started(update, matches).next,
        ),
        host.finished(update).perform_all(
            picker.update_completed(update, matches).effects,
        ).runs_only_pending(picker.update_completed(update, matches).next),
        host.perform_all(picker.matches_updated(matches).effects).runs_only_pending(
            picker.matches_updated(matches).next,
        ),
        host.perform_all(picker.confirm().effects).runs_only_pending(picker.confirm().next),
        host.perform_all(picker.secondary_confirm().effects).runs_only_pending(
            picker.secondary_confirm().next,
        ),
        host.perform_all(
            picker.confirm_finalized(secondary, finalized).effects,
        ).runs_only_pending(picker.confirm_finalized(secondary, finalized).next),
        host.perform_all(picker.refresh().effects).runs_only_pending(picker.refresh().next),
        host.perform_all(picker.toggle_include_ignored().effects).runs_only_pending(
            picker.toggle_include_ignored().next,
        ),
        picker.query is Some ==> host.perform_all(
            picker.on_input_editor_event(event).effects,
        ).runs_only_pending(picker.on_input_editor_event(event).next),
        host.perform_all(picker.set_query(query).effects).runs_only_pending(
            picker.set_query(query).next,
        ),
        host.perform_all(picker.use_selected_query(selected).effects).runs_only_pending(
            picker.use_selected_query(selected).next,
        ),
        host.perform_all(picker.select_next(matches)).runs_only_pending(picker),
        host.perform_all(picker.select_prev(matches)).runs_only_pending(picker),
        host.perform_all(picker.select_first(matches)).runs_only_pending(picker),
        host.perform_all(picker.select_last(matches)).runs_only_pending(picker),
        host.perform_all(picker.cycle_selection(matches)).runs_only_pending(picker),
        host.perform_all(picker.handle_click(index, secondary)).runs_only_pending(picker),
        host.perform_all(picker.cancel()).runs_only_pending(picker),
        host.perform_all(picker.teardown().effects).live == Set::<u64>::empty(),
        picker.teardown().next.pending is None,
{
    if let Some(pending) = picker.pending {
        lemma_perform_one(host, EffectView::CancelUpdate { update: pending });
    }
    assert(host.perform_all(picker.teardown().effects).live =~= Set::<u64>::empty());
    lemma_perform_update_matches(picker, host, query);
    lemma_perform_reconcile(picker, host, matches);
    lemma_perform_matches_updated(picker, host, matches);
    lemma_perform_matches_updated(picker, host.finished(update), matches);
    lemma_perform_confirm_finalized(picker, host, secondary, finalized);
    lemma_perform_confirm_finalized(picker, host, false, true);
    lemma_perform_confirm_finalized(picker, host, true, true);
    lemma_perform_one(
        host,
        EffectView::FinalizeUpdate {
            query: picker.query_text(),
            wait_millis: crate::model::CONFIRM_FINALIZE_MILLIS,
            confirm: Some(false),
        },
    );
    lemma_perform_one(
        host,
        EffectView::FinalizeUpdate {
            query: picker.query_text(),
            wait_millis: crate::model::CONFIRM_FINALIZE_MILLIS,
            confirm: Some(true),
        },
    );
    lemma_perform_update_matches(picker, host, picker.query_text());
    // toggle: two requests to delegate and view, then a refresh
    let toggled = seq![EffectView::ToggleIncludeIgnored, EffectView::Notify];
    lemma_perform_concat(host, toggled, picker.refresh().effects);
    lemma_perform_two(host, EffectView::ToggleIncludeIgnored, EffectView::Notify);
    assert(host.perform_all(toggled) == host);
    // query box
    match event {
        EditorEventView::BufferEdited { text } => {
            lemma_perform_update_matches(PickerView { query: Some(text), ..picker }, host, text);
        },
        EditorEventView::Blurred => {
            lemma_perform_selection_free(host, picker, matches, index, secondary);
        },
        EditorEventView::Other => {},
    }
    lemma_perform_two(host, EffectView::SetQuery { text: query }, EffectView::MoveCursorToEnd);
    match selected {
        Some(text) => {
            lemma_perform_concat(
                host,
                picker.set_query(text).effects,
                seq![EffectView::StopPropagation],
            );
            lemma_perform_two(host, EffectView::SetQuery { text }, EffectView::MoveCursorToEnd);
            lemma_perform_one(
                host.perform_all(picker.set_query(text).effects),
                EffectView::StopPropagation,
            );
        },
        None => {},
    }
    lemma_perform_selection_free(host, picker, matches, index, secondary);
}

/// Moving the selection, clicking a match and dismissing start and drop no match computation.
pub proof fn lemma_perform_selection_free(
    host: HostView,
    picker: PickerView,
    matches: Matches,
    index: usize,
    secondary: bool,
)
    ensures
        host.perform_all(picker.select_next(matches)).live == host.live,
        host.perform_all(picker.select_prev(matches)).live == host.live,
        host.perform_all(picker.select_first(matches)).live == host.live,
        host.perform_all(picker.select_last(matches)).live == host.live,
        host.perform_all(picker.cycle_selection(matches)).live == host.live,
        host.perform_all(picker.handle_click(index, secondary)).live == host.live,
        host.perform_all(picker.cancel()).live == host.live,
{
    lemma_perform_select(host, picker, matches.spec_next());
    lemma_perform_select(host, picker, matches.spec_prev());
    lemma_perform_select(host, picker, matches.spec_first());
    lemma_perform_select(host, picker, matches.spec_last());
    lemma_perform_handle_click(host, picker, index, secondary);
    lemma_perform_two(host, EffectView::Dismissed, EffectView::EmitDismiss);
}

/// What a faithful host holds after the selection moved to `target`.
pub proof fn lemma_perform_select(host: HostView, picker: PickerView, target: Option<usize>)
    ensures
        host.perform_all(picker.select(target)) == match target {
            Some(index) => HostView { selected_index: index, ..host },
            None => host,
        },
{
    if let Some(index) = target {
        lemma_perform_three(
            host,
            EffectView::SetSelectedIndex { index },
            picker.scroll_to_item_index(index),
            EffectView::Notify,
        );
    }
}

/// What a faithful host holds after a click on the match at `index`.
pub proof fn lemma_perform_handle_click(
    host: HostView,
    picker: PickerView,
    index: usize,
    secondary: bool,
)
    ensures
        host.perform_all(picker.handle_click(index, secondary)) == (HostView {
            selected_index: index,
            confirms: host.confirms.push(secondary),
            ..host
        }),
{
    lemma_perform_four(
        host,
        EffectView::StopPropagation,
        EffectView::PreventDefault,
        EffectView::SetSelectedIndex { index },
        EffectView::Confirm { secondary },
    );
}

/// A picker and the host that carries out what it asks for.
pub struct World {
    pub picker: PickerView,
    pub host: HostView,
}

/// The world after one query for each entry of `queries` was issued in turn,
/// none of the match computations having come to its end: each update is
/// started, the host carries out the requests and reports the start with
/// the matches of that moment, and carries out what the report asks for.
pub open spec fn after_updates(world: World, queries: Seq<Seq<char>>, matches: Seq<Matches>) -> World
    decreases queries.len(),
{
    if queries.len() == 0 {
        world
    } else {
        let before = after_updates(world, queries.drop_last(), matches.drop_last());
        let started = before.picker.update_matches(queries.last());
        let reported = started.next.update_started(before.picker.next_update, matches.last());
        World {
            picker: reported.next,
            host: before.host.perform_all(started.effects).perform_all(reported.effects),
        }
    }
}

/// However many queries are issued before a match computation comes to its
/// end, the one computation that runs afterwards is that of the last query,
/// and the picker awaits that one only: what any other computation reports
/// is ignored.
pub proof fn lemma_last_update_wins(world: World, queries: Seq<Seq<char>>, matches: Seq<Matches>)
    requires
        world.picker.wf(),
        world.host.runs_only_pending(world.picker),
        queries.len() > 0,
        matches.len() == queries.len(),
    ensures
        ({
            let after = after_updates(world, queries, matches);
            &&& after.picker.wf()
            &&& after.picker.pending matches Some(last)
            &&& after.host.live == set![last]
            &&& after.host.queries.dom().contains(last)
            &&& after.host.queries[last] == queries.last()
            &&& forall|update: u64, reported: Matches|
                update != last ==> #[trigger] after.picker.update_completed(update, reported) == (
                Step { next: after.picker, effects: Seq::empty() })
        }),
    decreases queries.len(),
{
    let before = if queries.len() == 1 {
        assert(queries.drop_last().len() == 0);
        world
    } else {
        lemma_last_update_wins(world, queries.drop_last(), matches.drop_last());
        after_updates(world, queries.drop_last(), matches.drop_last())
    };
    assert(before == after_updates(world, queries.drop_last(), matches.drop_last()));
    assert(before.picker.wf());
    assert(before.host.runs_only_pending(before.picker));
    let started = before.picker.update_matches(queries.last());
    let reported = started.next.update_started(before.picker.next_update, matches.last());
    lemma_perform_update_matches(before.picker, before.host, queries.last());
    let host = before.host.perform_all(started.effects);
    lemma_perform_reconcile(started.next, host, matches.last());
    let after = after_updates(world, queries, matches);
    assert(after.picker == reported.next);
    assert(after.host.live =~= set![before.picker.next_update]);
}

/// The index that a faithful delegate holds selected after "next", "previous",
/// "first", "last" or "cycle" is a valid index, whatever the number of matches
/// above zero. Without matches each of them asks for nothing.
pub proof fn lemma_selection_stays_in_bounds(picker: PickerView, host: HostView, matches: Matches)
    requires
        matches.wf(),
    ensures
        matches.count > 0 ==> {
            &&& host.perform_all(picker.select_next(matches)).selected_index < matches.count
            &&& host.perform_all(picker.select_prev(matches)).selected_index < matches.count
            &&& host.perform_all(picker.select_first(matches)).selected_index < matches.count
            &&& host.perform_all(picker.select_last(matches)).selected_index < matches.count
            &&& host.perform_all(picker.cycle_selection(matches)).selected_index < matches.count
        },
        matches.count == 0 ==> {
            &&& picker.select_next(matches) == Seq::<EffectView>::empty()
            &&& picker.select_prev(matches) == Seq::<EffectView>::empty()
            &&& picker.select_first(matches) == Seq::<EffectView>::empty()
            &&& picker.select_last(matches) == Seq::<EffectView>::empty()
            &&& picker.cycle_selection(matches) == Seq::<EffectView>::empty()
        },
{
    lemma_perform_select(host, picker, matches.spec_next());
    lemma_perform_select(host, picker, matches.spec_prev());
    lemma_perform_select(host, picker, matches.spec_first());
    lemma_perform_select(host, picker, matches.spec_last());
}

/// After a change of the matches the selection rests on a valid index,
/// whatever index the delegate reported: the reported one where it is in
/// range, the last one otherwise. Without matches the selection is left alone.
pub proof fn lemma_reclamp_stays_in_bounds(
    picker: PickerView,
    host: HostView,
    update: u64,
    matches: Matches,
)
    ensures
        matches.count > 0 ==> {
            &&& host.perform_all(picker.reclamp(matches)).selected_index < matches.count
            &&& host.perform_all(picker.matches_updated(matches).effects).selected_index
                < matches.count
            &&& picker.pending == Some(update) ==> host.perform_all(
                picker.update_started(update, matches).effects,
            ).selected_index < matches.count
            &&& picker.pending == Some(update) ==> host.perform_all(
                picker.update_completed(update, matches).effects,
            ).selected_index < matches.count
        },
        matches.wf() && matches.count > 0 ==> host.perform_all(
            picker.reclamp(matches),
        ).selected_index == matches.selected_index,
        matches.count == 0 ==> {
            &&& picker.reclamp(matches) == Seq::<EffectView>::empty()
            &&& host.perform_all(picker.matches_updated(matches).effects).selected_index
                == host.selected_index
        },
{
    lemma_perform_reclamp(picker, host, matches);
    lemma_perform_reconcile(picker, host, matches);
    lemma_perform_matches_updated(picker, host, matches);
}

/// The matches as the delegate reports them once it holds `index` selected.
pub open spec fn with_selected(matches: Matches, index: Option<usize>) -> Matches {
    match index {
        Some(index) => Matches { selected_index: index, ..matches },
        None => matches,
    }
}

/// "Select previous" after "select next" comes back to the match it left,
/// and so does "select next" after "select previous".
pub proof fn lemma_prev_undoes_next(matches: Matches)
    requires
        matches.wf(),
        matches.count > 0,
    ensures
        with_selected(matches, matches.spec_next()).wf(),
        with_selected(matches, matches.spec_prev()).wf(),
        with_selected(matches, matches.spec_next()).spec_prev() == Some(matches.selected_index),
        with_selected(matches, matches.spec_prev()).spec_next() == Some(matches.selected_index),
{
}

/// A confirm that finds an update pending which the delegate could not finish
/// delivers nothing now. The confirmation is delivered when that update
/// completes: once, with the flag of the confirm. A second report of the
/// same completion delivers nothing.
pub proof fn lemma_deferred_confirm_is_delivered_once(
    picker: PickerView,
    host: HostView,
    secondary: bool,
    matches: Matches,
    again: Matches,
)
    requires
        picker.wf(),
        picker.pending is Some,
    ensures
        ({
            let update = picker.pending.unwrap();
            let asked = picker.request_confirm(secondary);
            let deferred = asked.next.confirm_finalized(secondary, false);
            let completed = deferred.next.update_completed(update, matches);
            let repeated = completed.next.update_completed(update, again);
            &&& asked.next == picker
            &&& host.perform_all(asked.effects).confirms == host.confirms
            &&& deferred.effects == Seq::<EffectView>::empty()
            &&& deferred.next == (PickerView { confirm_on_update: Some(secondary), ..picker })
            &&& host.perform_all(completed.effects).confirms == host.confirms.push(secondary)
            &&& completed.next.pending is None
            &&& completed.next.confirm_on_update is None
            &&& repeated == (Step { next: completed.next, effects: Seq::empty() })
        }),
{
    let update = picker.pending.unwrap();
    let asked = picker.request_confirm(secondary);
    lemma_perform_one(
        host,
        EffectView::FinalizeUpdate {
            query: picker.query_text(),
            wait_millis: crate::model::CONFIRM_FINALIZE_MILLIS,
            confirm: Some(secondary),
        },
    );
    let deferred = asked.next.confirm_finalized(secondary, false);
    lemma_perform_matches_updated(deferred.next, host, matches);
    assert(host.confirms + seq![secondary] =~= host.confirms.push(secondary));
}

/// A deferred confirmation waits for a completion, not for a start. Where
/// a new update supersedes the pending one, the confirmation passes on to the
/// new update: neither the start of that update nor the report of its start
/// delivers anything, and its completion delivers the confirmation once.
pub proof fn lemma_deferred_confirm_survives_a_new_update(
    picker: PickerView,
    host: HostView,
    secondary: bool,
    query: Seq<char>,
    at_start: Matches,
    at_end: Matches,
)
    requires
        picker.wf(),
        picker.pending is Some,
    ensures
        ({
            let deferred = picker.confirm_finalized(secondary, false).next;
            let started = deferred.update_matches(query);
            let reported = started.next.update_started(deferred.next_update, at_start);
            let completed = reported.next.update_completed(deferred.next_update, at_end);
            let before = host.perform_all(started.effects).perform_all(reported.effects);
            &&& started.next.confirm_on_update == Some(secondary)
            &&& reported.next == started.next
            &&& before.confirms == host.confirms
            &&& before.perform_all(completed.effects).confirms == host.confirms.push(secondary)
            &&& completed.next.pending is None
            &&& completed.next.confirm_on_update is None
        }),
{
    let deferred = picker.confirm_finalized(secondary, false).next;
    let started = deferred.update_matches(query);
    lemma_perform_update_matches(deferred, host, query);
    let running = host.perform_all(started.effects);
    lemma_perform_reconcile(started.next, running, at_start);
    let before = running.perform_all(started.next.reconcile(at_start).effects);
    lemma_perform_matches_updated(started.next, before, at_end);
    assert(before.confirms + seq![secondary] =~= before.confirms.push(secondary));
}

/// A confirm whose pending update the delegate finished on the spot is
/// delivered at once, and once: the pending update is dropped, no
/// confirmation is held back, and the report of the update's own completion
/// is ignored.
pub proof fn lemma_finalized_confirm_is_delivered_once(
    picker: PickerView,
    host: HostView,
    secondary: bool,
    matches: Matches,
)
    requires
        picker.wf(),
        picker.pending is Some,
    ensures
        ({
            let update = picker.pending.unwrap();
            let confirmed = picker.confirm_finalized(secondary, true);
            &&& confirmed.effects == seq![
                EffectView::CancelUpdate { update },
                EffectView::Confirm { secondary },
            ]
            &&& host.perform_all(confirmed.effects).confirms == host.confirms.push(secondary)
            &&& !host.perform_all(confirmed.effects).live.contains(update)
            &&& confirmed.next.pending is None
            &&& confirmed.next.confirm_on_update is None
            &&& confirmed.next.update_completed(update, matches) == (Step {
                next: confirmed.next,
                effects: Seq::empty(),
            })
        }),
{
    let update = picker.pending.unwrap();
    let confirmed = picker.confirm_finalized(secondary, true);
    lemma_perform_confirm_finalized(picker, host, secondary, true);
    assert(confirmed.effects =~= seq![
        EffectView::CancelUpdate { update },
        EffectView::Confirm { secondary },
    ]);
}

/// Without a pending update a confirm is delivered at once and nothing else is asked for.
pub proof fn lemma_idle_confirm_is_immediate(picker: PickerView, secondary: bool)
    requires
        picker.wf(),
        picker.pending is None,
    ensures
        picker.request_confirm(secondary) == (Step {
            next: picker,
            effects: seq![EffectView::Confirm { secondary }],
        }),
{
    assert(picker.request_confirm(secondary).effects =~= seq![EffectView::Confirm { secondary }]);
}

/// Pressing the "include ignored" toggle computes the matches anew for the
/// query as it stands: the query is not changed, and the update that is
/// started, the one that the picker then awaits, is for that query.
pub proof fn lemma_toggle_requeries(picker: PickerView, host: HostView)
    ensures
        ({
            let toggled = picker.toggle_include_ignored();
            let after = host.perform_all(toggled.effects);
            &&& toggled.next.query == picker.query
            &&& toggled.next.pending == Some(picker.next_update)
            &&& toggled.effects == seq![EffectView::ToggleIncludeIgnored, EffectView::Notify]
                + picker.cancel_pending() + seq![
                EffectView::StartUpdate { update: picker.next_update, query: picker.query_text() },
            ]
            &&& after.live.contains(picker.next_update)
            &&& after.queries.dom().contains(picker.next_update)
            &&& after.queries[picker.next_update] == picker.query_text()
        }),
{
    let toggled = picker.toggle_include_ignored();
    let first = seq![EffectView::ToggleIncludeIgnored, EffectView::Notify];
    lemma_perform_concat(host, first, picker.refresh().effects);
    lemma_perform_two(host, EffectView::ToggleIncludeIgnored, EffectView::Notify);
    lemma_perform_update_matches(picker, host, picker.query_text());
    assert(toggled.effects =~= first + picker.cancel_pending() + seq![
        EffectView::StartUpdate { update: picker.next_update, query: picker.query_text() },
    ]);
}

} // verus!
