//! The hot-swappable display slot: the currently displayed model behind a
//! shared-ownership handle, a generation counter that advances by one on
//! every swap, and the binding configuration that belongs to the displayed
//! model.
//!
//! A reader that sees a given generation sees exactly the model stored by
//! that generation's swap; the consumer compares generations once per frame
//! to detect a change.

use std::sync::Arc;

use vstd::prelude::*;

use crate::tracker::ParamBindings;

verus! {

/// Relies on Arc::clone: the returned handle refers to the same value.
#[verifier::external_body]
fn clone_handle<T>(v: &Arc<T>) -> (res: Arc<T>)
    ensures
        res == *v,
{
    Arc::clone(v)
}

/// What a reader can observe of a slot: the displayed model, if any, and
/// the generation that published it.
pub struct SlotState<T> {
    pub current: Option<T>,
    pub generation: u32,
}

/// The state of a slot nothing has been swapped into.
pub open spec fn fresh_slot<T>() -> SlotState<T> {
    SlotState { current: None, generation: 0 }
}

/// The generation counter after one more swap: it advances by exactly one,
/// wrapping at the width of the counter.
pub open spec fn next_generation(g: u32) -> u32 {
    if g == u32::MAX {
        0
    } else {
        (g + 1) as u32
    }
}

/// The observable state after one swap.
pub open spec fn slot_after_swap<T>(v: SlotState<T>, model: Option<T>) -> SlotState<T> {
    SlotState { current: model, generation: next_generation(v.generation) }
}

/// The observable state after a whole sequence of swaps, first to last.
pub open spec fn slot_after_swaps<T>(v: SlotState<T>, models: Seq<Option<T>>) -> SlotState<T>
    decreases models.len(),
{
    if models.len() == 0 {
        v
    } else {
        slot_after_swap(slot_after_swaps(v, models.drop_last()), models.last())
    }
}

/// After the Nth swap on a fresh slot, a read returns generation N together
/// with exactly the model handed to swap N — never an older one.
pub proof fn lemma_swap_sequence<T>(models: Seq<Option<T>>)
    requires
        models.len() <= u32::MAX,
    ensures
        slot_after_swaps(fresh_slot::<T>(), models).generation == models.len(),
        models.len() > 0 ==> slot_after_swaps(fresh_slot::<T>(), models).current == models.last(),
    decreases models.len(),
{
    if models.len() > 0 {
        lemma_swap_sequence(models.drop_last());
    }
}

/// A read taken after at least N swaps on a fresh slot returns a
/// generation of at least N.
pub proof fn lemma_generation_dominates_swap_count<T>(models: Seq<Option<T>>, n: int)
    requires
        0 <= n <= models.len() <= u32::MAX,
    ensures
        slot_after_swaps(fresh_slot::<T>(), models).generation >= n,
{
    lemma_swap_sequence(models);
}

/// The slot holding the currently displayed model, its generation counter,
/// and the binding configuration built for that model.
pub struct DisplayedModel<T> {
    displayed: Option<Arc<T>>,
    generation: u32,
    pub bindings: ParamBindings,
}

impl<T> View for DisplayedModel<T> {
    type V = SlotState<T>;

    closed spec fn view(&self) -> SlotState<T> {
        SlotState {
            current: match self.displayed {
                Some(a) => Some(*a),
                None => None,
            },
            generation: self.generation,
        }
    }
}

impl<T> DisplayedModel<T> {
    /// The binding configuration, as specifications see it.
    pub closed spec fn spec_bindings(self) -> ParamBindings {
        self.bindings
    }

    /// A fresh slot: nothing displayed, generation zero, no bindings.
    pub fn new() -> (r: Self)
        ensures
            r@ == fresh_slot::<T>(),
            r.spec_bindings()@ == Seq::<(Seq<char>, crate::tracker::ParamBinding)>::empty(),
            r.spec_bindings().wf(),
    {
        DisplayedModel { displayed: None, generation: 0, bindings: ParamBindings::new() }
    }

    /// The displayed model's handle, if any, and the generation that
    /// published it.
    pub fn current_model(&self) -> (r: (Option<Arc<T>>, u32))
        ensures
            r.1 == self@.generation,
            r.0 is Some <==> self@.current is Some,
            r.0 matches Some(a) ==> self@.current == Some(*a),
    {
        let displayed = match &self.displayed {
            Some(a) => Some(clone_handle(a)),
            None => None,
        };
        (displayed, self.generation)
    }

    /// Replaces the displayed model (or clears it) and advances the
    /// generation counter by exactly one. The bindings are untouched: the
    /// caller rebuilds them when it observes the new generation.
    pub fn swap_model(&mut self, model: Option<T>)
        ensures
            final(self)@ == slot_after_swap(old(self)@, model),
            final(self).spec_bindings() == old(self).spec_bindings(),
    {
        self.displayed = match model {
            Some(m) => Some(Arc::new(m)),
            None => None,
        };
        self.generation = if self.generation == u32::MAX {
            0
        } else {
            self.generation + 1
        };
    }
}

} // verus!
