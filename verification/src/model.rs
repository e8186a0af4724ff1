//! The picker as a state machine over mathematical values: each operation maps
//! a state and its inputs to the next state and the effects, in order.

use crate::effect::EffectView;
use crate::selection::Matches;
use vstd::prelude::*;

verus! {

/// How long the delegate may take to finish the first update on the spot, in milliseconds.
pub const INITIAL_FINALIZE_MILLIS: u64 = 4;

/// How long the delegate may take to finish the pending update before a confirm, in milliseconds.
pub const CONFIRM_FINALIZE_MILLIS: u64 = 16;

/// Which kind of list displays the matches. It is chosen at construction and never changes.
#[derive(Debug, PartialEq, Eq, PartialOrd, Ord, Hash, Clone, Copy, Structural)]
pub enum ContainerKind {
    /// Items may differ in height.
    List,
    /// All items have the same height.
    UniformList,
}

/// The identifier of the update that is started after the update `update`.
pub open spec fn next_update_id(update: u64) -> u64 {
    if update == u64::MAX {
        0
    } else {
        (update + 1) as u64
    }
}

/// The state of a picker.
pub struct PickerView {
    pub container: ContainerKind,
    /// The text of the query box; `None` for a picker without one.
    pub query: Option<Seq<char>>,
    /// The update whose match computation is awaited, if any.
    pub pending: Option<u64>,
    /// The confirmation to deliver when the pending update completes, if any.
    pub confirm_on_update: Option<bool>,
    pub is_modal: bool,
    /// The identifier that the next update gets.
    pub next_update: u64,
}

/// A notification from the query box.
pub enum EditorEventView {
    BufferEdited { text: Seq<char> },
    Blurred,
    Other,
}

/// The outcome of an operation: the next state and the effects, in order.
pub struct Step {
    pub next: PickerView,
    pub effects: Seq<EffectView>,
}

impl PickerView {
    /// A deferred confirmation exists only while an update is pending, and
    /// the pending update is the one that was started last.
    pub open spec fn wf(self) -> bool {
        &&& self.confirm_on_update is Some ==> self.pending is Some
        &&& self.pending matches Some(update) ==> self.next_update == next_update_id(update)
    }

    /// The current query: the text of the query box, or the empty text without one.
    pub open spec fn query_text(self) -> Seq<char> {
        match self.query {
            Some(text) => text,
            None => Seq::empty(),
        }
    }

    /// The scroll request that brings item `index` into view.
    pub open spec fn scroll_to_item_index(self, index: usize) -> EffectView {
        match self.container {
            ContainerKind::List => EffectView::ScrollToRevealItem { index },
            ContainerKind::UniformList => EffectView::ScrollToItem { index },
        }
    }

    /// Dropping the pending update, if any.
    pub open spec fn cancel_pending(self) -> Seq<EffectView> {
        match self.pending {
            Some(update) => seq![EffectView::CancelUpdate { update }],
            None => Seq::empty(),
        }
    }

    /// Delivering the deferred confirmation, if any.
    pub open spec fn deferred_confirm(self) -> Seq<EffectView> {
        match self.confirm_on_update {
            Some(secondary) => seq![EffectView::Confirm { secondary }],
            None => Seq::empty(),
        }
    }

    /// Bringing the list's item count in line with the matches: only the
    /// variable-height list keeps a count of its own.
    pub open spec fn reset_list(self, matches: Matches) -> Seq<EffectView> {
        match self.container {
            ContainerKind::List => seq![EffectView::ResetList { item_count: matches.count }],
            ContainerKind::UniformList => Seq::empty(),
        }
    }

    /// Bringing the selection to rest on a valid index after the matches
    /// changed: the delegate is told the index and the list scrolls to it.
    /// Nothing at all without matches.
    pub open spec fn reclamp(self, matches: Matches) -> Seq<EffectView> {
        match matches.spec_clamped() {
            Some(index) => seq![
                EffectView::SetSelectedIndex { index },
                self.scroll_to_item_index(index),
            ],
            None => Seq::empty(),
        }
    }

    /// Moving the selection to `target`; nothing at all without a target.
    pub open spec fn select(self, target: Option<usize>) -> Seq<EffectView> {
        match target {
            Some(index) => seq![
                EffectView::SetSelectedIndex { index },
                self.scroll_to_item_index(index),
                EffectView::Notify,
            ],
            None => Seq::empty(),
        }
    }

    pub open spec fn select_next(self, matches: Matches) -> Seq<EffectView> {
        self.select(matches.spec_next())
    }

    pub open spec fn select_prev(self, matches: Matches) -> Seq<EffectView> {
        self.select(matches.spec_prev())
    }

    pub open spec fn select_first(self, matches: Matches) -> Seq<EffectView> {
        self.select(matches.spec_first())
    }

    pub open spec fn select_last(self, matches: Matches) -> Seq<EffectView> {
        self.select(matches.spec_last())
    }

    pub open spec fn cycle_selection(self, matches: Matches) -> Seq<EffectView> {
        self.select(matches.spec_next())
    }

    pub open spec fn cancel(self) -> Seq<EffectView> {
        seq![EffectView::Dismissed, EffectView::EmitDismiss]
    }

    pub open spec fn handle_click(self, index: usize, secondary: bool) -> Seq<EffectView> {
        seq![
            EffectView::StopPropagation,
            EffectView::PreventDefault,
            EffectView::SetSelectedIndex { index },
            EffectView::Confirm { secondary },
        ]
    }

    /// A new update for `query` supersedes the pending one: the pending update
    /// is dropped first, then the new one is started and becomes the pending
    /// one. A deferred confirmation passes on to the new update.
    pub open spec fn update_matches(self, query: Seq<char>) -> Step {
        Step {
            next: PickerView {
                pending: Some(self.next_update),
                next_update: next_update_id(self.next_update),
                ..self
            },
            effects: self.cancel_pending() + seq![
                EffectView::StartUpdate { update: self.next_update, query },
            ],
        }
    }

    /// The view is brought in line with the matches and the selection comes to
    /// rest on a valid index. The state stays as it is: the pending update
    /// stays pending, and a deferred confirmation keeps waiting for it.
    pub open spec fn reconcile(self, matches: Matches) -> Step {
        Step {
            next: self,
            effects: self.reset_list(matches) + self.reclamp(matches) + seq![EffectView::Notify],
        }
    }

    /// The delegate has begun to compute the matches of `update`: the view is
    /// brought in line with what the delegate holds at that moment. Nothing is
    /// confirmed yet: a deferred confirmation waits until an update completes.
    /// A report for an update that is not the pending one changes nothing.
    pub open spec fn update_started(self, update: u64, matches: Matches) -> Step {
        if self.pending == Some(update) {
            self.reconcile(matches)
        } else {
            Step { next: self, effects: Seq::empty() }
        }
    }

    /// The matches changed: the view is brought in line with them, the
    /// selection comes to rest on a valid index, the pending update is dropped
    /// and the deferred confirmation is delivered.
    pub open spec fn matches_updated(self, matches: Matches) -> Step {
        Step {
            next: PickerView { pending: None, confirm_on_update: None, ..self },
            effects: self.reset_list(matches) + self.reclamp(matches) + self.cancel_pending()
                + self.deferred_confirm() + seq![EffectView::Notify],
        }
    }

    /// The match computation of `update` has ended. A report for an update
    /// that is not the pending one changes nothing.
    pub open spec fn update_completed(self, update: u64, matches: Matches) -> Step {
        if self.pending == Some(update) {
            self.matches_updated(matches)
        } else {
            Step { next: self, effects: Seq::empty() }
        }
    }

    /// The delegate was given the chance to finish the pending update and
    /// `finalized` says whether it did. While an update is pending and was not
    /// finished, the confirmation is deferred; otherwise the pending update is
    /// dropped and the confirmation is delivered now.
    ///
    /// The picker remembers one confirmation at most, the latest. A
    /// confirmation that was deferred before is given up either way: a
    /// deferred one takes its place, and one that is delivered now is
    /// delivered in its stead.
    pub open spec fn confirm_finalized(self, secondary: bool, finalized: bool) -> Step {
        if self.pending is Some && !finalized {
            Step {
                next: PickerView { confirm_on_update: Some(secondary), ..self },
                effects: Seq::empty(),
            }
        } else {
            Step {
                next: PickerView { pending: None, confirm_on_update: None, ..self },
                effects: self.cancel_pending() + seq![EffectView::Confirm { secondary }],
            }
        }
    }

    /// A request to confirm. While an update is pending the delegate is first
    /// asked to finish it within the confirm budget; without one the
    /// confirmation is delivered at once.
    pub open spec fn request_confirm(self, secondary: bool) -> Step {
        if self.pending is Some {
            Step {
                next: self,
                effects: seq![
                    EffectView::FinalizeUpdate {
                        query: self.query_text(),
                        wait_millis: CONFIRM_FINALIZE_MILLIS,
                        confirm: Some(secondary),
                    },
                ],
            }
        } else {
            self.confirm_finalized(secondary, true)
        }
    }

    pub open spec fn confirm(self) -> Step {
        self.request_confirm(false)
    }

    pub open spec fn secondary_confirm(self) -> Step {
        self.request_confirm(true)
    }

    /// The query box gets `text`, with the cursor at its end. A picker
    /// without a query box ignores the request.
    pub open spec fn set_query(self, text: Seq<char>) -> Step {
        if self.query is Some {
            Step {
                next: PickerView { query: Some(text), ..self },
                effects: seq![EffectView::SetQuery { text }, EffectView::MoveCursorToEnd],
            }
        } else {
            Step { next: self, effects: Seq::empty() }
        }
    }

    /// The text that the delegate offers for the selected match becomes the
    /// query, and the action goes no further. Without an offer nothing happens.
    pub open spec fn use_selected_query(self, selected: Option<Seq<char>>) -> Step {
        match selected {
            Some(text) => Step {
                next: self.set_query(text).next,
                effects: self.set_query(text).effects + seq![EffectView::StopPropagation],
            },
            None => Step { next: self, effects: Seq::empty() },
        }
    }

    /// An edit of the query box starts an update for the new text, a blur
    /// dismisses the picker, anything else is ignored.
    pub open spec fn on_input_editor_event(self, event: EditorEventView) -> Step
        recommends
            self.query is Some,
    {
        match event {
            EditorEventView::BufferEdited { text } => PickerView {
                query: Some(text),
                ..self
            }.update_matches(text),
            EditorEventView::Blurred => Step { next: self, effects: self.cancel() },
            EditorEventView::Other => Step { next: self, effects: Seq::empty() },
        }
    }

    pub open spec fn refresh(self) -> Step {
        self.update_matches(self.query_text())
    }

    /// The "include ignored" toggle was pressed: the delegate flips the
    /// filter, and the matches are computed anew for the unchanged query.
    pub open spec fn toggle_include_ignored(self) -> Step {
        Step {
            next: self.refresh().next,
            effects: seq![EffectView::ToggleIncludeIgnored, EffectView::Notify]
                + self.refresh().effects,
        }
    }

    /// The picker goes away: its pending update is dropped, and with it the
    /// confirmation that waited for it.
    pub open spec fn teardown(self) -> Step {
        Step {
            next: PickerView { pending: None, confirm_on_update: None, ..self },
            effects: self.cancel_pending(),
        }
    }

    /// The state in which a picker is made, before its first update.
    pub open spec fn initial(container: ContainerKind, searchable: bool) -> PickerView {
        PickerView {
            container,
            query: if searchable {
                Some(Seq::empty())
            } else {
                None
            },
            pending: None,
            confirm_on_update: None,
            is_modal: true,
            next_update: 0,
        }
    }

    /// A new picker starts an update for the empty query and gives the
    /// delegate a short while to finish it on the spot.
    pub open spec fn new(container: ContainerKind, searchable: bool) -> Step {
        let started = Self::initial(container, searchable).update_matches(Seq::empty());
        Step {
            next: started.next,
            effects: started.effects + seq![
                EffectView::FinalizeUpdate {
                    query: Seq::empty(),
                    wait_millis: INITIAL_FINALIZE_MILLIS,
                    confirm: None,
                },
            ],
        }
    }
}

} // verus!
