//! The picker: its state, and the operations that keyboard, mouse, query box
//! and match computations trigger.

use crate::effect::{emit, Effect, EffectView};
use crate::model::{
    next_update_id, ContainerKind, EditorEventView, PickerView, CONFIRM_FINALIZE_MILLIS,
    INITIAL_FINALIZE_MILLIS,
};
use crate::selection::Matches;
use vstd::prelude::*;

verus! {

/// The top of the picker: a query box, whose text the picker keeps track of,
/// or nothing to type into.
pub(crate) enum Head {
    Editor { text: String },
    Empty,
}

impl Head {
    pub(crate) fn editor() -> (head: Head)
        ensures
            head@ == Some(Seq::<char>::empty()),
    {
        Head::Editor { text: String::new() }
    }

    pub(crate) fn empty() -> (head: Head)
        ensures
            head@ is None,
    {
        Head::Empty
    }
}

impl View for Head {
    type V = Option<Seq<char>>;

    closed spec fn view(&self) -> Option<Seq<char>> {
        match *self {
            Head::Editor { text } => Some(text@),
            Head::Empty => None,
        }
    }
}

/// A notification from the query box, with the text that the box holds after an edit.
#[derive(Clone, Debug, PartialEq, Eq)]
pub enum EditorEvent {
    BufferEdited { text: String },
    Blurred,
    Other,
}

impl View for EditorEvent {
    type V = EditorEventView;

    open spec fn view(&self) -> EditorEventView {
        match *self {
            EditorEvent::BufferEdited { text } => EditorEventView::BufferEdited { text: text@ },
            EditorEvent::Blurred => EditorEventView::Blurred,
            EditorEvent::Other => EditorEventView::Other,
        }
    }
}

/// The bookkeeping of match updates. It changes as a whole.
#[derive(Clone, Copy)]
struct Updates {
    pending_update_matches: Option<u64>,
    confirm_on_update: Option<bool>,
    next_update: u64,
}

pub struct Picker {
    element_container: ContainerKind,
    head: Head,
    updates: Updates,
    /// Whether the picker is rendered as a self-contained modal, and not as
    /// part of a larger one.
    is_modal: bool,
}

impl View for Picker {
    type V = PickerView;

    closed spec fn view(&self) -> PickerView {
        PickerView {
            container: self.element_container,
            query: self.head@,
            pending: self.updates.pending_update_matches,
            confirm_on_update: self.updates.confirm_on_update,
            is_modal: self.is_modal,
            next_update: self.updates.next_update,
        }
    }
}

impl Picker {
    #[verifier::type_invariant]
    spec fn well_formed(self) -> bool {
        self@.wf()
    }

    /// A picker with a query box whose matches all have the same height.
    pub fn uniform_list() -> (made: (Picker, Vec<Effect>))
        ensures
            made.0@.wf(),
            made.0@ == PickerView::new(ContainerKind::UniformList, true).next,
            made.1.deep_view() == PickerView::new(ContainerKind::UniformList, true).effects,
    {
        Self::new(ContainerKind::UniformList, Head::editor())
    }

    /// A picker without a query box whose matches all have the same height.
    pub fn nonsearchable_uniform_list() -> (made: (Picker, Vec<Effect>))
        ensures
            made.0@.wf(),
            made.0@ == PickerView::new(ContainerKind::UniformList, false).next,
            made.1.deep_view() == PickerView::new(ContainerKind::UniformList, false).effects,
    {
        Self::new(ContainerKind::UniformList, Head::empty())
    }

    /// A picker with a query box whose matches may differ in height.
    pub fn list() -> (made: (Picker, Vec<Effect>))
        ensures
            made.0@.wf(),
            made.0@ == PickerView::new(ContainerKind::List, true).next,
            made.1.deep_view() == PickerView::new(ContainerKind::List, true).effects,
    {
        Self::new(ContainerKind::List, Head::editor())
    }

    fn new(container: ContainerKind, head: Head) -> (made: (Picker, Vec<Effect>))
        requires
            head@ is Some ==> head@ == Some(Seq::<char>::empty()),
        ensures
            made.0@.wf(),
            made.0@ == PickerView::new(container, head@ is Some).next,
            made.1.deep_view() == PickerView::new(container, head@ is Some).effects,
    {
        let mut this = Picker {
            element_container: container,
            head,
            updates: Updates {
                pending_update_matches: None,
                confirm_on_update: None,
                next_update: 0,
            },
            is_modal: true,
        };
        assert(this@ == PickerView::initial(container, head@ is Some));
        let mut effects = this.update_matches(String::new());
        emit(
            &mut effects,
            Effect::FinalizeUpdate {
                query: String::new(),
                wait_millis: INITIAL_FINALIZE_MILLIS,
                confirm: None,
            },
        );
        (this, effects)
    }

    pub fn modal(self, modal: bool) -> (picker: Picker)
        ensures
            picker@.wf(),
            picker@ == (PickerView { is_modal: modal, ..self@ }),
    {
        proof {
            use_type_invariant(&self);
        }
        let mut this = self;
        this.is_modal = modal;
        this
    }

    pub fn is_modal(&self) -> (modal: bool)
        ensures
            self@.wf(),
            modal == self@.is_modal,
    {
        proof {
            use_type_invariant(self);
        }
        self.is_modal
    }

    pub fn container_kind(&self) -> (kind: ContainerKind)
        ensures
            self@.wf(),
            kind == self@.container,
    {
        proof {
            use_type_invariant(self);
        }
        self.element_container
    }

    /// Whether the picker has a query box.
    pub fn is_searchable(&self) -> (searchable: bool)
        ensures
            self@.wf(),
            searchable == (self@.query is Some),
    {
        proof {
            use_type_invariant(self);
        }
        match &self.head {
            Head::Editor { .. } => true,
            Head::Empty => false,
        }
    }

    /// The update whose match computation is awaited, if any.
    pub fn pending_update(&self) -> (pending: Option<u64>)
        ensures
            self@.wf(),
            pending == self@.pending,
    {
        proof {
            use_type_invariant(self);
        }
        self.updates.pending_update_matches
    }

    /// The confirmation that waits for the pending update, if any.
    pub fn confirm_on_update(&self) -> (confirm: Option<bool>)
        ensures
            self@.wf(),
            confirm == self@.confirm_on_update,
    {
        proof {
            use_type_invariant(self);
        }
        self.updates.confirm_on_update
    }

    pub fn focus(&self) -> (effects: Vec<Effect>)
        ensures
            effects.deep_view() == seq![EffectView::Focus],
    {
        let mut effects: Vec<Effect> = Vec::new();
        emit(&mut effects, Effect::Focus);
        effects
    }

    fn select(&self, target: Option<usize>) -> (effects: Vec<Effect>)
        ensures
            effects.deep_view() == self@.select(target),
    {
        let mut effects: Vec<Effect> = Vec::new();
        if let Some(index) = target {
            emit(&mut effects, Effect::SetSelectedIndex { index });
            emit(&mut effects, self.scroll_to_item_index(index));
            emit(&mut effects, Effect::Notify);
        }
        effects
    }

    pub fn select_next(&self, matches: Matches) -> (effects: Vec<Effect>)
        requires
            matches.wf(),
        ensures
            effects.deep_view() == self@.select_next(matches),
    {
        self.select(matches.next())
    }

    pub fn select_prev(&self, matches: Matches) -> (effects: Vec<Effect>)
        requires
            matches.wf(),
        ensures
            effects.deep_view() == self@.select_prev(matches),
    {
        self.select(matches.prev())
    }

    pub fn select_first(&self, matches: Matches) -> (effects: Vec<Effect>)
        ensures
            effects.deep_view() == self@.select_first(matches),
    {
        self.select(matches.first())
    }

    pub fn select_last(&self, matches: Matches) -> (effects: Vec<Effect>)
        ensures
            effects.deep_view() == self@.select_last(matches),
    {
        self.select(matches.last())
    }

    /// Advances the selection like `select_next`; meant for advancing without a key press.
    pub fn cycle_selection(&self, matches: Matches) -> (effects: Vec<Effect>)
        requires
            matches.wf(),
        ensures
            effects.deep_view() == self@.cycle_selection(matches),
    {
        self.select(matches.next())
    }

    pub fn cancel(&self) -> (effects: Vec<Effect>)
        ensures
            effects.deep_view() == self@.cancel(),
    {
        let mut effects: Vec<Effect> = Vec::new();
        emit(&mut effects, Effect::Dismissed);
        emit(&mut effects, Effect::EmitDismiss);
        effects
    }

    pub fn confirm(&mut self) -> (effects: Vec<Effect>)
        ensures
            final(self)@.wf(),
            final(self)@ == old(self)@.confirm().next,
            effects.deep_view() == old(self)@.confirm().effects,
    {
        self.request_confirm(false)
    }

    pub fn secondary_confirm(&mut self) -> (effects: Vec<Effect>)
        ensures
            final(self)@.wf(),
            final(self)@ == old(self)@.secondary_confirm().next,
            effects.deep_view() == old(self)@.secondary_confirm().effects,
    {
        self.request_confirm(true)
    }

    fn request_confirm(&mut self, secondary: bool) -> (effects: Vec<Effect>)
        ensures
            final(self)@.wf(),
            final(self)@ == old(self)@.request_confirm(secondary).next,
            effects.deep_view() == old(self)@.request_confirm(secondary).effects,
    {
        if self.updates.pending_update_matches.is_some() {
            let mut effects: Vec<Effect> = Vec::new();
            emit(
                &mut effects,
                Effect::FinalizeUpdate {
                    query: self.query(),
                    wait_millis: CONFIRM_FINALIZE_MILLIS,
                    confirm: Some(secondary),
                },
            );
            effects
        } else {
            self.confirm_finalized(secondary, true)
        }
    }

    /// Settles a confirm once the delegate had its chance to finish the
    /// pending update: `finalized` is what the delegate answered.
    ///
    /// The picker remembers one confirmation at most, the latest: a
    /// confirmation that was deferred before is given up, whether this one is
    /// deferred in its place or delivered now in its stead.
    pub fn confirm_finalized(&mut self, secondary: bool, finalized: bool) -> (effects: Vec<Effect>)
        ensures
            final(self)@.wf(),
            final(self)@ == old(self)@.confirm_finalized(secondary, finalized).next,
            effects.deep_view() == old(self)@.confirm_finalized(secondary, finalized).effects,
    {
        proof {
            use_type_invariant(&*self);
        }
        let mut effects: Vec<Effect> = Vec::new();
        if self.updates.pending_update_matches.is_some() && !finalized {
            self.updates = Updates { confirm_on_update: Some(secondary), ..self.updates };
        } else {
            Self::cancel_update(self.updates.pending_update_matches, &mut effects);
            self.updates = Updates {
                pending_update_matches: None,
                confirm_on_update: None,
                ..self.updates
            };
            emit(&mut effects, Effect::Confirm { secondary });
        }
        effects
    }

    pub fn use_selected_query(&mut self, selected: Option<String>) -> (effects: Vec<Effect>)
        ensures
            final(self)@.wf(),
            final(self)@ == old(self)@.use_selected_query(
                match selected {
                    Some(text) => Some(text@),
                    None => None,
                },
            ).next,
            effects.deep_view() == old(self)@.use_selected_query(
                match selected {
                    Some(text) => Some(text@),
                    None => None,
                },
            ).effects,
    {
        proof {
            use_type_invariant(&*self);
        }
        match selected {
            Some(new_query) => {
                let mut effects = self.set_query(new_query);
                emit(&mut effects, Effect::StopPropagation);
                effects
            },
            None => Vec::new(),
        }
    }

    pub fn handle_click(&self, index: usize, secondary: bool) -> (effects: Vec<Effect>)
        ensures
            effects.deep_view() == self@.handle_click(index, secondary),
    {
        let mut effects: Vec<Effect> = Vec::new();
        emit(&mut effects, Effect::StopPropagation);
        emit(&mut effects, Effect::PreventDefault);
        emit(&mut effects, Effect::SetSelectedIndex { index });
        emit(&mut effects, Effect::Confirm { secondary });
        effects
    }

    pub fn on_input_editor_event(&mut self, event: EditorEvent) -> (effects: Vec<Effect>)
        requires
            old(self)@.query is Some,
        ensures
            final(self)@.wf(),
            final(self)@ == old(self)@.on_input_editor_event(event@).next,
            effects.deep_view() == old(self)@.on_input_editor_event(event@).effects,
    {
        proof {
            use_type_invariant(&*self);
        }
        match event {
            EditorEvent::BufferEdited { text } => {
                let query = text.clone();
                self.head = Head::Editor { text };
                self.update_matches(query)
            },
            EditorEvent::Blurred => self.cancel(),
            EditorEvent::Other => Vec::new(),
        }
    }

    pub fn refresh(&mut self) -> (effects: Vec<Effect>)
        ensures
            final(self)@.wf(),
            final(self)@ == old(self)@.refresh().next,
            effects.deep_view() == old(self)@.refresh().effects,
    {
        let query = self.query();
        self.update_matches(query)
    }

    /// Reacts to a press of the "include ignored" toggle.
    pub fn toggle_include_ignored(&mut self) -> (effects: Vec<Effect>)
        ensures
            final(self)@.wf(),
            final(self)@ == old(self)@.toggle_include_ignored().next,
            effects.deep_view() == old(self)@.toggle_include_ignored().effects,
    {
        let mut effects: Vec<Effect> = Vec::new();
        emit(&mut effects, Effect::ToggleIncludeIgnored);
        emit(&mut effects, Effect::Notify);
        let query = self.query();
        self.start_update(query, &mut effects);
        effects
    }

    pub fn update_matches(&mut self, query: String) -> (effects: Vec<Effect>)
        ensures
            final(self)@.wf(),
            final(self)@ == old(self)@.update_matches(query@).next,
            effects.deep_view() == old(self)@.update_matches(query@).effects,
    {
        let mut effects: Vec<Effect> = Vec::new();
        self.start_update(query, &mut effects);
        effects
    }

    /// Supersedes the pending update by a new one for `query`, adding the
    /// requests to `effects`.
    fn start_update(&mut self, query: String, effects: &mut Vec<Effect>)
        ensures
            final(self)@.wf(),
            final(self)@ == old(self)@.update_matches(query@).next,
            final(effects).deep_view() == old(effects).deep_view() + old(self)@.update_matches(
                query@,
            ).effects,
    {
        proof {
            use_type_invariant(&*self);
        }
        Self::cancel_update(self.updates.pending_update_matches, effects);
        let update: u64 = self.updates.next_update;
        self.updates = Updates {
            pending_update_matches: Some(update),
            next_update: Self::update_after(update),
            ..self.updates
        };
        emit(effects, Effect::StartUpdate { update, query });
        assert(effects.deep_view() =~= old(effects).deep_view() + old(self)@.update_matches(
            query@,
        ).effects);
    }

    /// The host reports that the delegate has begun to compute the matches of
    /// `update`; `matches` is what the delegate holds now. A deferred
    /// confirmation is not delivered here: it waits until an update completes.
    pub fn update_started(&mut self, update: u64, matches: Matches) -> (effects: Vec<Effect>)
        ensures
            final(self)@.wf(),
            final(self)@ == old(self)@.update_started(update, matches).next,
            effects.deep_view() == old(self)@.update_started(update, matches).effects,
    {
        proof {
            use_type_invariant(&*self);
        }
        let mut effects: Vec<Effect> = Vec::new();
        if self.is_pending(update) {
            self.reset_list(matches, &mut effects);
            self.reclamp(matches, &mut effects);
            emit(&mut effects, Effect::Notify);
        }
        effects
    }

    /// The host reports that the match computation of `update` has ended;
    /// `matches` is what the delegate holds now.
    pub fn update_completed(&mut self, update: u64, matches: Matches) -> (effects: Vec<Effect>)
        ensures
            final(self)@.wf(),
            final(self)@ == old(self)@.update_completed(update, matches).next,
            effects.deep_view() == old(self)@.update_completed(update, matches).effects,
    {
        proof {
            use_type_invariant(&*self);
        }
        if self.is_pending(update) {
            self.matches_updated(matches)
        } else {
            Vec::new()
        }
    }

    pub fn matches_updated(&mut self, matches: Matches) -> (effects: Vec<Effect>)
        ensures
            final(self)@.wf(),
            final(self)@ == old(self)@.matches_updated(matches).next,
            effects.deep_view() == old(self)@.matches_updated(matches).effects,
    {
        proof {
            use_type_invariant(&*self);
        }
        let mut effects: Vec<Effect> = Vec::new();
        self.reset_list(matches, &mut effects);
        self.reclamp(matches, &mut effects);
        Self::cancel_update(self.updates.pending_update_matches, &mut effects);
        let confirm_on_update = self.updates.confirm_on_update;
        self.updates = Updates {
            pending_update_matches: None,
            confirm_on_update: None,
            ..self.updates
        };
        if let Some(secondary) = confirm_on_update {
            emit(&mut effects, Effect::Confirm { secondary });
        }
        emit(&mut effects, Effect::Notify);
        effects
    }

    /// The current query: the text of the query box, or the empty text without one.
    pub fn query(&self) -> (query: String)
        ensures
            self@.wf(),
            query@ == self@.query_text(),
    {
        proof {
            use_type_invariant(self);
        }
        match &self.head {
            Head::Editor { text } => text.clone(),
            Head::Empty => String::new(),
        }
    }

    pub fn set_query(&mut self, query: String) -> (effects: Vec<Effect>)
        ensures
            final(self)@.wf(),
            final(self)@ == old(self)@.set_query(query@).next,
            effects.deep_view() == old(self)@.set_query(query@).effects,
    {
        proof {
            use_type_invariant(&*self);
        }
        let mut effects: Vec<Effect> = Vec::new();
        if self.is_searchable() {
            self.head = Head::Editor { text: query.clone() };
            emit(&mut effects, Effect::SetQuery { text: query });
            emit(&mut effects, Effect::MoveCursorToEnd);
        }
        effects
    }

    pub fn scroll_to_item_index(&self, index: usize) -> (effect: Effect)
        ensures
            effect@ == self@.scroll_to_item_index(index),
    {
        match self.element_container {
            ContainerKind::List => Effect::ScrollToRevealItem { index },
            ContainerKind::UniformList => Effect::ScrollToItem { index },
        }
    }

    /// The identifier of the update that follows `update`: identifiers count
    /// up and start over at zero after the largest.
    pub fn update_after(update: u64) -> (next: u64)
        ensures
            next == next_update_id(update),
            next != update,
    {
        if update == u64::MAX {
            0
        } else {
            update + 1
        }
    }

    /// Ends the picker's work: the pending update is dropped, and with it the
    /// confirmation that waited for it. The host calls this before it lets
    /// the picker go.
    pub fn teardown(&mut self) -> (effects: Vec<Effect>)
        ensures
            final(self)@.wf(),
            final(self)@ == old(self)@.teardown().next,
            effects.deep_view() == old(self)@.teardown().effects,
    {
        proof {
            use_type_invariant(&*self);
        }
        let mut effects: Vec<Effect> = Vec::new();
        Self::cancel_update(self.updates.pending_update_matches, &mut effects);
        self.updates = Updates {
            pending_update_matches: None,
            confirm_on_update: None,
            ..self.updates
        };
        assert(effects.deep_view() =~= old(self)@.teardown().effects);
        effects
    }

    fn is_pending(&self, update: u64) -> (pending: bool)
        ensures
            pending == (self@.pending == Some(update)),
    {
        match self.updates.pending_update_matches {
            Some(pending) => pending == update,
            None => false,
        }
    }

    fn cancel_update(pending: Option<u64>, effects: &mut Vec<Effect>)
        ensures
            final(effects).deep_view() == old(effects).deep_view() + (match pending {
                Some(update) => seq![EffectView::CancelUpdate { update }],
                None => Seq::empty(),
            }),
    {
        if let Some(update) = pending {
            emit(effects, Effect::CancelUpdate { update });
        }
        assert(effects.deep_view() =~= old(effects).deep_view() + (match pending {
            Some(update) => seq![EffectView::CancelUpdate { update }],
            None => Seq::empty(),
        }));
    }

    fn reset_list(&self, matches: Matches, effects: &mut Vec<Effect>)
        ensures
            final(effects).deep_view() == old(effects).deep_view() + self@.reset_list(matches),
    {
        if let ContainerKind::List = self.element_container {
            emit(effects, Effect::ResetList { item_count: matches.count });
        }
        assert(effects.deep_view() =~= old(effects).deep_view() + self@.reset_list(matches));
    }

    fn reclamp(&self, matches: Matches, effects: &mut Vec<Effect>)
        ensures
            final(effects).deep_view() == old(effects).deep_view() + self@.reclamp(matches),
    {
        if let Some(index) = matches.clamped() {
            emit(effects, Effect::SetSelectedIndex { index });
            emit(effects, self.scroll_to_item_index(index));
        }
        assert(effects.deep_view() =~= old(effects).deep_view() + self@.reclamp(matches));
    }
}

} // verus!
