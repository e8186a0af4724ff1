//! What the picker shows: the decisions behind each frame, as plain values
//! for the host to turn into elements.

use crate::model::{ContainerKind, PickerView};
use crate::options::{SearchOptions, SupportedSearchOptions};
use crate::picker::Picker;
use crate::selection::Matches;
use vstd::prelude::*;

verus! {

/// A toggle beside the query box.
#[derive(Clone, Copy, Debug, PartialEq, Eq, Structural)]
pub enum SearchButton {
    /// Toggles whether ignored items are searched too; `active` while they are.
    IncludeIgnored { active: bool },
}

/// How one match is drawn.
#[derive(Clone, Copy, Debug, PartialEq, Eq, Structural)]
pub struct RenderedElement {
    /// The index of the match, by which a click on it is reported.
    pub index: usize,
    /// Whether the match is the selected one.
    pub selected: bool,
    /// Whether a separator follows the match.
    pub separator_after: bool,
}

/// The list that holds the matches.
#[derive(Clone, Copy, Debug, PartialEq, Eq, Structural)]
pub enum RenderedContainer {
    /// A variable-height list, which keeps its own count of items.
    List,
    /// A uniform list of `item_count` items.
    UniformList { item_count: usize },
}

/// What stands at the top of the picker.
#[derive(Clone, Debug, PartialEq, Eq)]
pub enum RenderedHead {
    /// The query box, with the toggles beside it.
    Editor { search_buttons: Vec<SearchButton> },
    /// Nothing to type into.
    Empty,
}

/// What stands below the head.
#[derive(Clone, Copy, Debug, PartialEq, Eq, Structural)]
pub enum RenderedBody {
    /// The matches, in their list.
    Matches { container: RenderedContainer },
    /// The notice that nothing matches.
    NoMatches,
}

/// One frame of the picker.
#[derive(Clone, Debug, PartialEq, Eq)]
pub struct Rendered {
    /// Whether the picker is styled as a modal of its own.
    pub modal: bool,
    pub head: RenderedHead,
    pub body: RenderedBody,
}

/// The toggles that a delegate with these options gets.
pub open spec fn search_buttons(
    supported: SupportedSearchOptions,
    options: SearchOptions,
) -> Seq<SearchButton> {
    if supported.include_ignored {
        seq![SearchButton::IncludeIgnored { active: options.include_ignored }]
    } else {
        Seq::empty()
    }
}

/// The list for these matches in a picker of this kind.
pub open spec fn element_container(picker: PickerView, matches: Matches) -> RenderedContainer {
    match picker.container {
        ContainerKind::List => RenderedContainer::List,
        ContainerKind::UniformList => RenderedContainer::UniformList { item_count: matches.count },
    }
}

/// The matches where there is one, the notice that nothing matches otherwise.
pub open spec fn body(picker: PickerView, matches: Matches) -> RenderedBody {
    if matches.count > 0 {
        RenderedBody::Matches { container: element_container(picker, matches) }
    } else {
        RenderedBody::NoMatches
    }
}

impl Picker {
    pub fn render_search_buttons(
        &self,
        supported: SupportedSearchOptions,
        options: SearchOptions,
    ) -> (buttons: Vec<SearchButton>)
        ensures
            buttons@ == search_buttons(supported, options),
    {
        let mut buttons: Vec<SearchButton> = Vec::new();
        if supported.include_ignored {
            buttons.push(SearchButton::IncludeIgnored { active: options.include_ignored });
        }
        assert(buttons@ =~= search_buttons(supported, options));
        buttons
    }

    /// How the match at `index` is drawn, given where the delegate wants separators.
    pub fn render_element(
        &self,
        matches: Matches,
        separators_after_indices: &Vec<usize>,
        index: usize,
    ) -> (element: RenderedElement)
        ensures
            element == (RenderedElement {
                index,
                selected: index == matches.selected_index,
                separator_after: separators_after_indices@.contains(index),
            }),
    {
        let mut separator_after = false;
        let mut i: usize = 0;
        while i < separators_after_indices.len()
            invariant
                i <= separators_after_indices.len(),
                separator_after == separators_after_indices@.take(i as int).contains(index),
            decreases separators_after_indices.len() - i,
        {
            let ghost seen = separators_after_indices@.take(i as int);
            let ghost more = separators_after_indices@.take(i + 1);
            assert(more =~= seen.push(separators_after_indices@[i as int]));
            if separators_after_indices[i] == index {
                assert(more[i as int] == index);
                separator_after = true;
            } else if separator_after {
                let ghost at = choose|k: int| 0 <= k < seen.len() && seen[k] == index;
                assert(more[at] == index);
            } else {
                assert forall|k: int| 0 <= k < more.len() implies more[k] != index by {
                    if k < i {
                        assert(seen[k] == more[k]);
                    }
                }
            }
            i = i + 1;
        }
        assert(separators_after_indices@.take(i as int) =~= separators_after_indices@);
        RenderedElement { index, selected: index == matches.selected_index, separator_after }
    }

    pub fn render_element_container(&self, matches: Matches) -> (container: RenderedContainer)
        ensures
            container == element_container(self@, matches),
    {
        match self.container_kind() {
            ContainerKind::List => RenderedContainer::List,
            ContainerKind::UniformList => RenderedContainer::UniformList {
                item_count: matches.count,
            },
        }
    }

    pub fn render(
        &self,
        matches: Matches,
        supported: SupportedSearchOptions,
        options: SearchOptions,
    ) -> (frame: Rendered)
        ensures
            frame.modal == self@.is_modal,
            frame.body == body(self@, matches),
            match frame.head {
                RenderedHead::Editor { search_buttons: buttons } => self@.query is Some && buttons@
                    == search_buttons(supported, options),
                RenderedHead::Empty => self@.query is None,
            },
    {
        let head = if self.is_searchable() {
            RenderedHead::Editor { search_buttons: self.render_search_buttons(supported, options) }
        } else {
            RenderedHead::Empty
        };
        let body = if matches.count > 0 {
            RenderedBody::Matches { container: self.render_element_container(matches) }
        } else {
            RenderedBody::NoMatches
        };
        Rendered { modal: self.is_modal(), head, body }
    }
}

} // verus!
