//! A host that carries out every effect faithfully, as far as the picker's
//! guarantees depend on it: which match computations run, for which query,
//! which match the delegate holds selected and which confirmations it received.

use crate::effect::EffectView;
use crate::model::PickerView;
use vstd::prelude::*;

verus! {

pub struct HostView {
    /// The updates whose match computation was started and neither dropped nor finished.
    pub live: Set<u64>,
    /// The query of each update that was started.
    pub queries: Map<u64, Seq<char>>,
    /// The index that the delegate holds selected.
    pub selected_index: usize,
    /// The confirmations that the delegate received, oldest first.
    pub confirms: Seq<bool>,
}

impl HostView {
    /// The host after it carried out `effect`.
    pub open spec fn perform(self, effect: EffectView) -> HostView {
        match effect {
            EffectView::SetSelectedIndex { index } => HostView { selected_index: index, ..self },
            EffectView::Confirm { secondary } => HostView {
                confirms: self.confirms.push(secondary),
                ..self
            },
            EffectView::CancelUpdate { update } => HostView {
                live: self.live.remove(update),
                ..self
            },
            EffectView::StartUpdate { update, query } => HostView {
                live: self.live.insert(update),
                queries: self.queries.insert(update, query),
                ..self
            },
            _ => self,
        }
    }

    /// The host after it carried out `effects`, first to last.
    pub open spec fn perform_all(self, effects: Seq<EffectView>) -> HostView
        decreases effects.len(),
    {
        if effects.len() == 0 {
            self
        } else {
            self.perform_all(effects.drop_last()).perform(effects.last())
        }
    }

    /// The host after the match computation of `update` came to its end.
    pub open spec fn finished(self, update: u64) -> HostView {
        HostView { live: self.live.remove(update), ..self }
    }

    /// No match computation runs but that of the picker's pending update.
    pub open spec fn runs_only_pending(self, picker: PickerView) -> bool {
        forall|update: u64| #[trigger] self.live.contains(update) ==> picker.pending == Some(update)
    }
}

pub proof fn lemma_perform_push(host: HostView, effects: Seq<EffectView>, effect: EffectView)
    ensures
        host.perform_all(effects.push(effect)) == host.perform_all(effects).perform(effect),
{
    assert(effects.push(effect).drop_last() =~= effects);
}

pub proof fn lemma_perform_one(host: HostView, effect: EffectView)
    ensures
        host.perform_all(seq![effect]) == host.perform(effect),
{
    lemma_perform_push(host, Seq::empty(), effect);
}

pub proof fn lemma_perform_two(host: HostView, first: EffectView, second: EffectView)
    ensures
        host.perform_all(seq![first, second]) == host.perform(first).perform(second),
{
    assert(seq![first, second] =~= seq![first].push(second));
    lemma_perform_push(host, seq![first], second);
    lemma_perform_one(host, first);
}

pub proof fn lemma_perform_three(
    host: HostView,
    first: EffectView,
    second: EffectView,
    third: EffectView,
)
    ensures
        host.perform_all(seq![first, second, third]) == host.perform(first).perform(
            second,
        ).perform(third),
{
    assert(seq![first, second, third] =~= seq![first, second].push(third));
    lemma_perform_push(host, seq![first, second], third);
    lemma_perform_two(host, first, second);
}

pub proof fn lemma_perform_four(
    host: HostView,
    first: EffectView,
    second: EffectView,
    third: EffectView,
    fourth: EffectView,
)
    ensures
        host.perform_all(seq![first, second, third, fourth]) == host.perform(first).perform(
            second,
        ).perform(third).perform(fourth),
{
    assert(seq![first, second, third, fourth] =~= seq![first, second, third].push(fourth));
    lemma_perform_push(host, seq![first, second, third], fourth);
    lemma_perform_three(host, first, second, third);
}

pub proof fn lemma_perform_concat(host: HostView, first: Seq<EffectView>, rest: Seq<EffectView>)
    ensures
        host.perform_all(first + rest) == host.perform_all(first).perform_all(rest),
    decreases rest.len(),
{
    if rest.len() == 0 {
        assert(first + rest =~= first);
    } else {
        lemma_perform_concat(host, first, rest.drop_last());
        assert((first + rest).drop_last() =~= first + rest.drop_last());
    }
}

} // verus!
