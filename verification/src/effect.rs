//! What the picker asks its host to do.

use vstd::prelude::*;

verus! {

/// One request to the host. An operation of the picker returns its requests in
/// the order in which they are to be carried out.
#[derive(Clone, Debug, PartialEq, Eq)]
pub enum Effect {
    /// Tell the delegate that the match at this index is now selected.
    SetSelectedIndex { index: usize },
    /// Tell the delegate that the selected match was confirmed.
    Confirm { secondary: bool },
    /// Tell the delegate that the picker was dismissed.
    Dismissed,
    /// Tell the delegate to flip its "include ignored" filter.
    ToggleIncludeIgnored,
    /// Drop the tasks of this update: whatever of it still runs is cancelled.
    CancelUpdate { update: u64 },
    /// Ask the delegate to compute the matches for `query`. Report at once
    /// with `update_started`, carry out what that returns, then let the
    /// computation run and report its end with `update_completed`.
    StartUpdate { update: u64, query: String },
    /// Give the delegate up to `wait_millis` to finish the pending match
    /// computation on the spot. Where `confirm` holds a flag, report whether it
    /// finished with `confirm_finalized`.
    FinalizeUpdate { query: String, wait_millis: u64, confirm: Option<bool> },
    /// Set the number of items of the variable-height list.
    ResetList { item_count: usize },
    /// Scroll the variable-height list until this item is revealed.
    ScrollToRevealItem { index: usize },
    /// Scroll the uniform list to this item.
    ScrollToItem { index: usize },
    /// Mark the view as needing a redraw.
    Notify,
    /// Tell the observers of the view that it was dismissed.
    EmitDismiss,
    /// Keep the current action from reaching other handlers.
    StopPropagation,
    /// Keep the current input event from its default handling.
    PreventDefault,
    /// Replace the text of the query box.
    SetQuery { text: String },
    /// Put the cursor of the query box behind the last character of its text.
    MoveCursorToEnd,
    /// Move the keyboard focus to the head of the picker.
    Focus,
}

/// An [`Effect`] with its texts as sequences of characters.
pub enum EffectView {
    SetSelectedIndex { index: usize },
    Confirm { secondary: bool },
    Dismissed,
    ToggleIncludeIgnored,
    CancelUpdate { update: u64 },
    StartUpdate { update: u64, query: Seq<char> },
    FinalizeUpdate { query: Seq<char>, wait_millis: u64, confirm: Option<bool> },
    ResetList { item_count: usize },
    ScrollToRevealItem { index: usize },
    ScrollToItem { index: usize },
    Notify,
    EmitDismiss,
    StopPropagation,
    PreventDefault,
    SetQuery { text: Seq<char> },
    MoveCursorToEnd,
    Focus,
}

impl View for Effect {
    type V = EffectView;

    open spec fn view(&self) -> EffectView {
        match *self {
            Effect::SetSelectedIndex { index } => EffectView::SetSelectedIndex { index },
            Effect::Confirm { secondary } => EffectView::Confirm { secondary },
            Effect::Dismissed => EffectView::Dismissed,
            Effect::ToggleIncludeIgnored => EffectView::ToggleIncludeIgnored,
            Effect::CancelUpdate { update } => EffectView::CancelUpdate { update },
            Effect::StartUpdate { update, query } => EffectView::StartUpdate { update, query: query@ },
            Effect::FinalizeUpdate { query, wait_millis, confirm } => EffectView::FinalizeUpdate {
                query: query@,
                wait_millis,
                confirm,
            },
            Effect::ResetList { item_count } => EffectView::ResetList { item_count },
            Effect::ScrollToRevealItem { index } => EffectView::ScrollToRevealItem { index },
            Effect::ScrollToItem { index } => EffectView::ScrollToItem { index },
            Effect::Notify => EffectView::Notify,
            Effect::EmitDismiss => EffectView::EmitDismiss,
            Effect::StopPropagation => EffectView::StopPropagation,
            Effect::PreventDefault => EffectView::PreventDefault,
            Effect::SetQuery { text } => EffectView::SetQuery { text: text@ },
            Effect::MoveCursorToEnd => EffectView::MoveCursorToEnd,
            Effect::Focus => EffectView::Focus,
        }
    }
}

impl DeepView for Effect {
    type V = EffectView;

    open spec fn deep_view(&self) -> EffectView {
        self@
    }
}

/// Appends `effect` to `effects`.
pub(crate) fn emit(effects: &mut Vec<Effect>, effect: Effect)
    ensures
        final(effects).deep_view() == old(effects).deep_view().push(effect@),
{
    effects.push(effect);
    assert(effects.deep_view() =~= old(effects).deep_view().push(effect@));
}

} // verus!
