use picker::{EditorEvent, Effect, Matches, Picker, RenderedBody, SearchOptions, SupportedSearchOptions};

/// A delegate that matches the candidates which contain the query. Its
/// computations end only when the test says so, unless it is `fast`: then
/// it finishes on the spot when it is given the chance.
struct Delegate {
    candidates: Vec<String>,
    matches: Vec<String>,
    selected_index: usize,
    include_ignored: bool,
    fast: bool,
    confirmed: Vec<bool>,
    dismissed: usize,
}

/// The host: it carries out, in order, what the picker asks for.
struct Host {
    picker: Picker,
    delegate: Delegate,
    /// The computations that run, with their queries.
    running: Vec<(u64, String)>,
    /// The computations that were finished on the spot and have yet to report.
    finished: Vec<u64>,
    /// Every request that was carried out, in order.
    log: Vec<Effect>,
    list_item_count: Option<usize>,
    scrolled_to: Option<usize>,
    notified: usize,
    editor_text: String,
    cursor: usize,
}

fn candidates() -> Vec<String> {
    ["a", "ab", "abc", "abd", "b", "xyz"].iter().map(|s| s.to_string()).collect()
}

impl Delegate {
    fn new(fast: bool) -> Delegate {
        Delegate {
            candidates: candidates(),
            matches: Vec::new(),
            selected_index: 0,
            include_ignored: false,
            fast,
            confirmed: Vec::new(),
            dismissed: 0,
        }
    }

    fn report(&self) -> Matches {
        Matches::new(self.matches.len(), self.selected_index).expect("a consistent delegate")
    }

    fn apply(&mut self, query: &str) {
        self.matches = self.candidates.iter().filter(|c| c.contains(query)).cloned().collect();
        self.selected_index = 0;
    }
}

impl Host {
    fn new(made: (Picker, Vec<Effect>), fast: bool) -> Host {
        let mut host = Host {
            picker: made.0,
            delegate: Delegate::new(fast),
            running: Vec::new(),
            finished: Vec::new(),
            log: Vec::new(),
            list_item_count: None,
            scrolled_to: None,
            notified: 0,
            editor_text: String::new(),
            cursor: 0,
        };
        host.perform(made.1);
        host
    }

    fn perform(&mut self, effects: Vec<Effect>) {
        for effect in effects {
            self.log.push(effect.clone());
            match effect {
                Effect::SetSelectedIndex { index } => self.delegate.selected_index = index,
                Effect::Confirm { secondary } => self.delegate.confirmed.push(secondary),
                Effect::Dismissed => self.delegate.dismissed += 1,
                Effect::ToggleIncludeIgnored => {
                    self.delegate.include_ignored = !self.delegate.include_ignored
                }
                Effect::CancelUpdate { update } => {
                    self.running.retain(|(id, _)| *id != update);
                    self.finished.retain(|id| *id != update);
                }
                Effect::StartUpdate { update, query } => {
                    self.running.push((update, query));
                    let more = self.picker.update_started(update, self.delegate.report());
                    self.perform(more);
                }
                Effect::FinalizeUpdate { query, confirm, .. } => {
                    let mut ready = false;
                    if self.delegate.fast {
                        if let Some(at) = self.running.iter().position(|(_, q)| *q == query) {
                            let (update, query) = self.running.remove(at);
                            self.delegate.apply(&query);
                            self.finished.push(update);
                            ready = true;
                        }
                    }
                    if let Some(secondary) = confirm {
                        let more = self.picker.confirm_finalized(secondary, ready);
                        self.perform(more);
                    }
                }
                Effect::ResetList { item_count } => self.list_item_count = Some(item_count),
                Effect::ScrollToRevealItem { index } | Effect::ScrollToItem { index } => {
                    self.scrolled_to = Some(index)
                }
                Effect::Notify => self.notified += 1,
                Effect::SetQuery { text } => self.editor_text = text,
                Effect::MoveCursorToEnd => self.cursor = self.editor_text.len(),
                Effect::EmitDismiss
                | Effect::StopPropagation
                | Effect::PreventDefault
                | Effect::Focus => {}
            }
        }
    }

    /// The user types: the query box holds `text` afterwards.
    fn edit(&mut self, text: &str) {
        self.editor_text = text.to_string();
        let effects =
            self.picker.on_input_editor_event(EditorEvent::BufferEdited { text: text.to_string() });
        self.perform(effects);
    }

    /// The computation of `update` comes to its end, if it still runs: the
    /// delegate takes over its result and the picker is told.
    fn complete(&mut self, update: u64) -> bool {
        if let Some(at) = self.running.iter().position(|(id, _)| *id == update) {
            let (update, query) = self.running.remove(at);
            self.delegate.apply(&query);
            let effects = self.picker.update_completed(update, self.delegate.report());
            self.perform(effects);
            true
        } else if let Some(at) = self.finished.iter().position(|id| *id == update) {
            self.finished.remove(at);
            let effects = self.picker.update_completed(update, self.delegate.report());
            self.perform(effects);
            true
        } else {
            false
        }
    }

    fn confirms_in_log(&self) -> Vec<bool> {
        self.log
            .iter()
            .filter_map(|effect| match effect {
                Effect::Confirm { secondary } => Some(*secondary),
                _ => None,
            })
            .collect()
    }
}

fn strings(items: &[&str]) -> Vec<String> {
    items.iter().map(|s| s.to_string()).collect()
}

#[test]
fn a_new_picker_starts_an_update_for_the_empty_query() {
    let (picker, effects) = Picker::uniform_list();
    assert_eq!(
        effects,
        vec![
            Effect::StartUpdate { update: 0, query: String::new() },
            Effect::FinalizeUpdate { query: String::new(), wait_millis: 4, confirm: None },
        ]
    );
    assert_eq!(picker.pending_update(), Some(0));
    assert_eq!(picker.confirm_on_update(), None);
    assert!(picker.is_modal());
    assert!(picker.is_searchable());
    assert_eq!(picker.query(), "");
}

#[test]
fn the_three_constructors_differ_in_list_and_head() {
    let (uniform, a) = Picker::uniform_list();
    let (plain, b) = Picker::nonsearchable_uniform_list();
    let (list, c) = Picker::list();
    assert!(uniform.is_searchable());
    assert!(!plain.is_searchable());
    assert!(list.is_searchable());
    assert_eq!(a, b);
    assert_eq!(b, c);
}

#[test]
fn an_update_drops_the_pending_one_before_it_starts() {
    let (mut picker, _) = Picker::uniform_list();
    assert_eq!(
        picker.update_matches("a".to_string()),
        vec![
            Effect::CancelUpdate { update: 0 },
            Effect::StartUpdate { update: 1, query: "a".to_string() },
        ]
    );
    assert_eq!(picker.pending_update(), Some(1));
    assert_eq!(
        picker.update_matches("ab".to_string()),
        vec![
            Effect::CancelUpdate { update: 1 },
            Effect::StartUpdate { update: 2, query: "ab".to_string() },
        ]
    );
    assert_eq!(picker.pending_update(), Some(2));
}

#[test]
fn an_update_after_completion_has_nothing_to_drop() {
    let (mut picker, _) = Picker::uniform_list();
    picker.update_completed(0, Matches::new(0, 0).unwrap());
    assert_eq!(picker.pending_update(), None);
    assert_eq!(
        picker.update_matches("q".to_string()),
        vec![Effect::StartUpdate { update: 1, query: "q".to_string() }]
    );
}

#[test]
fn only_the_last_of_three_quick_edits_is_reflected() {
    let mut host = Host::new(Picker::uniform_list(), false);
    host.edit("a");
    host.edit("ab");
    host.edit("abc");
    assert_eq!(host.running, vec![(3, "abc".to_string())]);
    assert_eq!(host.picker.pending_update(), Some(3));
    // the superseded computations were dropped: they cannot come to an end
    assert!(!host.complete(0));
    assert!(!host.complete(1));
    assert!(!host.complete(2));
    assert_eq!(host.delegate.matches, Vec::<String>::new());
    assert!(host.complete(3));
    assert_eq!(host.delegate.matches, strings(&["abc"]));
    assert_eq!(host.picker.pending_update(), None);
    assert!(host.running.is_empty());
}

#[test]
fn a_stale_report_changes_nothing() {
    let mut host = Host::new(Picker::list(), false);
    host.edit("a");
    host.edit("ab");
    let log = host.log.len();
    for stale in [0, 1, 7, u64::MAX] {
        let report = Matches::new(4, 3).unwrap();
        assert_eq!(host.picker.update_completed(stale, report), vec![]);
        assert_eq!(host.picker.update_started(stale, report), vec![]);
        assert_eq!(host.picker.pending_update(), Some(2));
    }
    assert_eq!(host.log.len(), log);
    assert_eq!(host.running, vec![(2, "ab".to_string())]);
}

#[test]
fn completion_brings_the_view_in_line_with_the_matches() {
    let (mut picker, _) = Picker::list();
    assert_eq!(
        picker.update_completed(0, Matches::new(4, 2).unwrap()),
        vec![
            Effect::ResetList { item_count: 4 },
            Effect::SetSelectedIndex { index: 2 },
            Effect::ScrollToRevealItem { index: 2 },
            Effect::CancelUpdate { update: 0 },
            Effect::Notify,
        ]
    );
    assert_eq!(picker.pending_update(), None);
    let (mut uniform, _) = Picker::uniform_list();
    assert_eq!(
        uniform.update_completed(0, Matches::new(4, 2).unwrap()),
        vec![
            Effect::SetSelectedIndex { index: 2 },
            Effect::ScrollToItem { index: 2 },
            Effect::CancelUpdate { update: 0 },
            Effect::Notify,
        ]
    );
}

#[test]
fn the_start_of_an_update_keeps_it_pending() {
    let (mut picker, _) = Picker::list();
    assert_eq!(
        picker.update_started(0, Matches::new(0, 0).unwrap()),
        vec![Effect::ResetList { item_count: 0 }, Effect::Notify]
    );
    assert_eq!(picker.pending_update(), Some(0));
    assert_eq!(
        picker.update_started(0, Matches::new(3, 1).unwrap()),
        vec![
            Effect::ResetList { item_count: 3 },
            Effect::SetSelectedIndex { index: 1 },
            Effect::ScrollToRevealItem { index: 1 },
            Effect::Notify,
        ]
    );
    assert_eq!(picker.pending_update(), Some(0));
}

#[test]
fn matches_updated_without_a_pending_update_only_redraws() {
    let (mut picker, _) = Picker::uniform_list();
    picker.update_completed(0, Matches::new(1, 0).unwrap());
    assert_eq!(
        picker.matches_updated(Matches::new(3, 1).unwrap()),
        vec![
            Effect::SetSelectedIndex { index: 1 },
            Effect::ScrollToItem { index: 1 },
            Effect::Notify,
        ]
    );
    assert_eq!(picker.matches_updated(Matches::new(0, 0).unwrap()), vec![Effect::Notify]);
}

#[test]
fn the_selection_comes_to_rest_in_range_after_an_update() {
    let (mut picker, _) = Picker::list();
    assert_eq!(
        picker.update_completed(0, Matches { count: 3, selected_index: 7 }),
        vec![
            Effect::ResetList { item_count: 3 },
            Effect::SetSelectedIndex { index: 2 },
            Effect::ScrollToRevealItem { index: 2 },
            Effect::CancelUpdate { update: 0 },
            Effect::Notify,
        ]
    );
    assert_eq!(
        picker.matches_updated(Matches { count: 1, selected_index: 1 }),
        vec![
            Effect::ResetList { item_count: 1 },
            Effect::SetSelectedIndex { index: 0 },
            Effect::ScrollToRevealItem { index: 0 },
            Effect::Notify,
        ]
    );
    assert_eq!(
        picker.matches_updated(Matches { count: 0, selected_index: 5 }),
        vec![Effect::ResetList { item_count: 0 }, Effect::Notify]
    );
}

#[test]
fn the_end_of_the_picker_drops_the_pending_update() {
    let (mut picker, _) = Picker::uniform_list();
    assert_eq!(picker.teardown(), vec![Effect::CancelUpdate { update: 0 }]);
    assert_eq!(picker.pending_update(), None);
    assert_eq!(picker.teardown(), vec![]);
    let mut host = Host::new(Picker::list(), false);
    host.edit("a");
    host.edit("ab");
    let effects = host.picker.confirm();
    host.perform(effects);
    assert_eq!(host.picker.confirm_on_update(), Some(false));
    let effects = host.picker.teardown();
    assert_eq!(effects, vec![Effect::CancelUpdate { update: 2 }]);
    host.perform(effects);
    assert!(host.running.is_empty());
    assert_eq!(host.picker.pending_update(), None);
    assert_eq!(host.picker.confirm_on_update(), None);
    assert_eq!(host.delegate.confirmed, Vec::<bool>::new());
}

#[test]
fn update_identifiers_count_up_and_start_over() {
    assert_eq!(Picker::update_after(0), 1);
    assert_eq!(Picker::update_after(41), 42);
    assert_eq!(Picker::update_after(u64::MAX - 1), u64::MAX);
    assert_eq!(Picker::update_after(u64::MAX), 0);
}

#[test]
fn a_confirm_without_pending_update_is_delivered_at_once() {
    let mut host = Host::new(Picker::uniform_list(), false);
    host.complete(0);
    let effects = host.picker.confirm();
    assert_eq!(effects, vec![Effect::Confirm { secondary: false }]);
    let effects = host.picker.secondary_confirm();
    assert_eq!(effects, vec![Effect::Confirm { secondary: true }]);
    assert_eq!(host.picker.confirm_on_update(), None);
}

#[test]
fn a_confirm_with_pending_update_first_asks_the_delegate_to_finish() {
    let (mut picker, _) = Picker::uniform_list();
    picker.on_input_editor_event(EditorEvent::BufferEdited { text: "ab".to_string() });
    assert_eq!(
        picker.confirm(),
        vec![Effect::FinalizeUpdate {
            query: "ab".to_string(),
            wait_millis: 16,
            confirm: Some(false),
        }]
    );
    assert_eq!(
        picker.secondary_confirm(),
        vec![Effect::FinalizeUpdate {
            query: "ab".to_string(),
            wait_millis: 16,
            confirm: Some(true),
        }]
    );
    assert_eq!(picker.pending_update(), Some(1));
    assert_eq!(picker.confirm_on_update(), None);
}

#[test]
fn a_deferred_confirm_is_delivered_once_when_the_update_completes() {
    let mut host = Host::new(Picker::uniform_list(), false);
    host.edit("ab");
    let effects = host.picker.secondary_confirm();
    host.perform(effects);
    assert_eq!(host.delegate.confirmed, Vec::<bool>::new());
    assert_eq!(host.picker.confirm_on_update(), Some(true));
    assert_eq!(host.picker.pending_update(), Some(1));
    assert!(host.complete(1));
    assert_eq!(host.delegate.confirmed, vec![true]);
    assert_eq!(host.delegate.matches, strings(&["ab", "abc", "abd"]));
    assert_eq!(host.picker.confirm_on_update(), None);
    // nothing is left to deliver
    let again = host.picker.update_completed(1, host.delegate.report());
    assert_eq!(again, vec![]);
    assert_eq!(host.confirms_in_log(), vec![true]);
}

#[test]
fn a_deferred_primary_confirm_keeps_its_flag() {
    let mut host = Host::new(Picker::list(), false);
    let effects = host.picker.confirm();
    host.perform(effects);
    assert_eq!(host.picker.confirm_on_update(), Some(false));
    assert!(host.complete(0));
    assert_eq!(host.delegate.confirmed, vec![false]);
}

#[test]
fn the_later_of_two_deferred_confirms_is_the_one_delivered() {
    let (mut picker, _) = Picker::uniform_list();
    assert_eq!(picker.confirm_finalized(false, false), vec![]);
    assert_eq!(picker.confirm_finalized(true, false), vec![]);
    assert_eq!(picker.confirm_on_update(), Some(true));
    assert_eq!(
        picker.update_completed(0, Matches::new(2, 0).unwrap()),
        vec![
            Effect::SetSelectedIndex { index: 0 },
            Effect::ScrollToItem { index: 0 },
            Effect::CancelUpdate { update: 0 },
            Effect::Confirm { secondary: true },
            Effect::Notify,
        ]
    );
}

#[test]
fn a_finished_update_lets_the_confirm_through_at_once() {
    let mut host = Host::new(Picker::uniform_list(), false);
    host.edit("ab");
    host.delegate.fast = true;
    let effects = host.picker.confirm();
    host.perform(effects);
    assert_eq!(host.delegate.confirmed, vec![false]);
    assert_eq!(host.delegate.matches, strings(&["ab", "abc", "abd"]));
    assert_eq!(host.picker.pending_update(), None);
    assert_eq!(host.picker.confirm_on_update(), None);
    // the update's own completion delivers no second confirmation
    assert!(!host.complete(1));
    assert_eq!(host.picker.update_completed(1, host.delegate.report()), vec![]);
    assert_eq!(host.confirms_in_log(), vec![false]);
}

#[test]
fn settling_a_confirm_drops_the_pending_update_first() {
    let (mut picker, _) = Picker::uniform_list();
    assert_eq!(
        picker.confirm_finalized(true, true),
        vec![Effect::CancelUpdate { update: 0 }, Effect::Confirm { secondary: true }]
    );
    assert_eq!(picker.pending_update(), None);
}

#[test]
fn a_confirm_let_through_leaves_no_deferred_confirm_behind() {
    let (mut picker, _) = Picker::uniform_list();
    picker.confirm_finalized(false, false);
    assert_eq!(picker.confirm_on_update(), Some(false));
    // the later confirm is delivered in place of the deferred one
    assert_eq!(
        picker.confirm_finalized(true, true),
        vec![Effect::CancelUpdate { update: 0 }, Effect::Confirm { secondary: true }]
    );
    assert_eq!(picker.confirm_on_update(), None);
    assert_eq!(picker.pending_update(), None);
    assert_eq!(
        picker.update_matches("x".to_string()),
        vec![Effect::StartUpdate { update: 1, query: "x".to_string() }]
    );
    assert_eq!(
        picker.update_started(1, Matches::new(0, 0).unwrap()),
        vec![Effect::Notify]
    );
}

#[test]
fn a_deferred_confirm_waits_for_the_new_update_to_complete() {
    let mut host = Host::new(Picker::uniform_list(), false);
    let effects = host.picker.confirm();
    host.perform(effects);
    assert_eq!(host.picker.confirm_on_update(), Some(false));
    host.edit("b");
    // the start of the new update confirms nothing
    assert_eq!(host.delegate.confirmed, Vec::<bool>::new());
    assert_eq!(host.confirms_in_log(), Vec::<bool>::new());
    assert_eq!(host.picker.confirm_on_update(), Some(false));
    assert_eq!(host.picker.pending_update(), Some(1));
    assert!(host.complete(1));
    assert_eq!(host.delegate.matches, strings(&["ab", "abc", "abd", "b"]));
    assert_eq!(host.delegate.confirmed, vec![false]);
    assert_eq!(host.picker.confirm_on_update(), None);
    assert_eq!(host.confirms_in_log(), vec![false]);
}

#[test]
fn the_start_of_an_update_confirms_nothing() {
    let (mut picker, _) = Picker::uniform_list();
    assert_eq!(picker.confirm_finalized(false, false), vec![]);
    assert_eq!(
        picker.update_matches("a".to_string()),
        vec![
            Effect::CancelUpdate { update: 0 },
            Effect::StartUpdate { update: 1, query: "a".to_string() },
        ]
    );
    assert_eq!(
        picker.update_started(1, Matches::new(2, 0).unwrap()),
        vec![
            Effect::SetSelectedIndex { index: 0 },
            Effect::ScrollToItem { index: 0 },
            Effect::Notify,
        ]
    );
    assert_eq!(picker.confirm_on_update(), Some(false));
    assert_eq!(
        picker.update_completed(1, Matches::new(2, 0).unwrap()),
        vec![
            Effect::SetSelectedIndex { index: 0 },
            Effect::ScrollToItem { index: 0 },
            Effect::CancelUpdate { update: 1 },
            Effect::Confirm { secondary: false },
            Effect::Notify,
        ]
    );
}

#[test]
fn a_fast_delegate_fills_the_picker_while_it_is_made() {
    let host = Host::new(Picker::uniform_list(), true);
    assert_eq!(host.delegate.matches.len(), 6);
    let frame = host.picker.render(
        host.delegate.report(),
        SupportedSearchOptions::default(),
        SearchOptions { include_ignored: false },
    );
    assert!(matches!(frame.body, RenderedBody::Matches { .. }));
}

#[test]
fn a_slow_delegate_leaves_the_new_picker_empty() {
    let mut host = Host::new(Picker::uniform_list(), false);
    assert_eq!(host.delegate.matches.len(), 0);
    let frame = host.picker.render(
        host.delegate.report(),
        SupportedSearchOptions::default(),
        SearchOptions { include_ignored: false },
    );
    assert_eq!(frame.body, RenderedBody::NoMatches);
    assert!(host.complete(0));
    assert_eq!(host.delegate.matches.len(), 6);
}

#[test]
fn the_toggle_asks_again_for_the_same_query() {
    let mut host = Host::new(Picker::uniform_list(), false);
    host.edit("ab");
    host.complete(1);
    let effects = host.picker.toggle_include_ignored();
    assert_eq!(
        effects,
        vec![
            Effect::ToggleIncludeIgnored,
            Effect::Notify,
            Effect::StartUpdate { update: 2, query: "ab".to_string() },
        ]
    );
    host.perform(effects);
    assert!(host.delegate.include_ignored);
    assert_eq!(host.picker.query(), "ab");
    assert_eq!(host.running, vec![(2, "ab".to_string())]);
}

#[test]
fn the_toggle_supersedes_a_pending_update() {
    let (mut picker, _) = Picker::uniform_list();
    picker.on_input_editor_event(EditorEvent::BufferEdited { text: "xy".to_string() });
    assert_eq!(
        picker.toggle_include_ignored(),
        vec![
            Effect::ToggleIncludeIgnored,
            Effect::Notify,
            Effect::CancelUpdate { update: 1 },
            Effect::StartUpdate { update: 2, query: "xy".to_string() },
        ]
    );
    assert_eq!(picker.query(), "xy");
}

#[test]
fn refresh_asks_again_for_the_current_query() {
    let (mut picker, _) = Picker::uniform_list();
    picker.on_input_editor_event(EditorEvent::BufferEdited { text: "abd".to_string() });
    picker.update_completed(1, Matches::new(1, 0).unwrap());
    assert_eq!(
        picker.refresh(),
        vec![Effect::StartUpdate { update: 2, query: "abd".to_string() }]
    );
    let (mut plain, _) = Picker::nonsearchable_uniform_list();
    assert_eq!(
        plain.refresh(),
        vec![
            Effect::CancelUpdate { update: 0 },
            Effect::StartUpdate { update: 1, query: String::new() },
        ]
    );
}

#[test]
fn an_edit_starts_an_update_for_the_new_text() {
    let (mut picker, _) = Picker::list();
    assert_eq!(
        picker.on_input_editor_event(EditorEvent::BufferEdited { text: "a".to_string() }),
        vec![
            Effect::CancelUpdate { update: 0 },
            Effect::StartUpdate { update: 1, query: "a".to_string() },
        ]
    );
    assert_eq!(picker.query(), "a");
}

#[test]
fn a_blur_dismisses_the_picker() {
    let mut host = Host::new(Picker::uniform_list(), false);
    let effects = host.picker.on_input_editor_event(EditorEvent::Blurred);
    assert_eq!(effects, vec![Effect::Dismissed, Effect::EmitDismiss]);
    assert_eq!(effects, host.picker.cancel());
    host.perform(effects);
    assert_eq!(host.delegate.dismissed, 1);
    assert_eq!(host.picker.pending_update(), Some(0));
}

#[test]
fn other_editor_events_are_ignored() {
    let (mut picker, _) = Picker::uniform_list();
    assert_eq!(picker.on_input_editor_event(EditorEvent::Other), vec![]);
    assert_eq!(picker.pending_update(), Some(0));
    assert_eq!(picker.query(), "");
}

#[test]
fn set_query_fills_the_query_box() {
    let mut host = Host::new(Picker::uniform_list(), false);
    let effects = host.picker.set_query("abc".to_string());
    assert_eq!(
        effects,
        vec![Effect::SetQuery { text: "abc".to_string() }, Effect::MoveCursorToEnd]
    );
    host.perform(effects);
    assert_eq!(host.editor_text, "abc");
    assert_eq!(host.cursor, 3);
    assert_eq!(host.picker.query(), "abc");
    // the query box then reports the edit, which starts the update
    host.edit("abc");
    assert_eq!(host.running, vec![(1, "abc".to_string())]);
}

#[test]
fn set_query_without_query_box_does_nothing() {
    let (mut picker, _) = Picker::nonsearchable_uniform_list();
    assert_eq!(picker.set_query("abc".to_string()), vec![]);
    assert_eq!(picker.query(), "");
}

#[test]
fn the_selected_match_becomes_the_query() {
    let (mut picker, _) = Picker::uniform_list();
    assert_eq!(
        picker.use_selected_query(Some("abd".to_string())),
        vec![
            Effect::SetQuery { text: "abd".to_string() },
            Effect::MoveCursorToEnd,
            Effect::StopPropagation,
        ]
    );
    assert_eq!(picker.query(), "abd");
    assert_eq!(picker.use_selected_query(None), vec![]);
    assert_eq!(picker.query(), "abd");
    let (mut plain, _) = Picker::nonsearchable_uniform_list();
    assert_eq!(
        plain.use_selected_query(Some("abd".to_string())),
        vec![Effect::StopPropagation]
    );
}

#[test]
fn a_click_selects_and_confirms() {
    let mut host = Host::new(Picker::uniform_list(), true);
    host.complete(0);
    let effects = host.picker.handle_click(3, true);
    assert_eq!(
        effects,
        vec![
            Effect::StopPropagation,
            Effect::PreventDefault,
            Effect::SetSelectedIndex { index: 3 },
            Effect::Confirm { secondary: true },
        ]
    );
    host.perform(effects);
    assert_eq!(host.delegate.selected_index, 3);
    assert_eq!(host.delegate.confirmed, vec![true]);
    assert_eq!(
        host.picker.handle_click(0, false)[3],
        Effect::Confirm { secondary: false }
    );
}

#[test]
fn focus_asks_for_the_keyboard_focus() {
    let (picker, _) = Picker::uniform_list();
    assert_eq!(picker.focus(), vec![Effect::Focus]);
}

#[test]
fn at_most_one_computation_runs_at_any_time() {
    let mut host = Host::new(Picker::list(), false);
    let texts = ["a", "ab", "b", "", "xyz", "x"];
    for (step, text) in texts.iter().enumerate() {
        host.edit(text);
        assert_eq!(host.running.len(), 1);
        assert_eq!(host.running[0].1, *text);
        assert_eq!(host.picker.pending_update(), Some(host.running[0].0));
        if step % 2 == 1 {
            let update = host.running[0].0;
            assert!(host.complete(update));
            assert!(host.running.is_empty());
            assert_eq!(host.picker.pending_update(), None);
        }
        let effects = host.picker.toggle_include_ignored();
        host.perform(effects);
        assert_eq!(host.running.len(), 1);
    }
    assert_eq!(host.list_item_count, Some(host.delegate.matches.len()));
    assert!(host.notified > 0);
    assert_eq!(host.scrolled_to, Some(0));
}
