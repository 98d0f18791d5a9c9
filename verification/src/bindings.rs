//! Building the binding store for a displayed model's declared parameters.

use vstd::prelude::*;

use crate::keyed::{has_name, index_of_name};
use crate::tracker::{ParamBinding, ParamBindings};

verus! {

/// One parameter declared by the displayed model: its unique name and
/// whether it takes one value or an independent X/Y pair.
#[derive(Clone, Debug, PartialEq, Eq)]
pub struct ParamDecl {
    pub name: String,
    pub is_vec2: bool,
}

/// The binding a freshly declared parameter starts with: present, unbound.
pub open spec fn unbound_binding(is_vec2: bool) -> ParamBinding {
    if is_vec2 {
        ParamBinding::TwoDim(None)
    } else {
        ParamBinding::OneDim(None)
    }
}

/// A fresh store for the given parameters: every declared parameter is
/// present, in declaration order, and none has a binding configured.
/// Built anew whenever the displayed model's generation advances, since the
/// parameter set belongs to the model.
pub fn bindings_for_model(params: &Vec<ParamDecl>) -> (r: ParamBindings)
    requires
        forall|i: int, j: int|
            0 <= i < j < params@.len() ==> (#[trigger] params@[i]).name@ != (
            #[trigger] params@[j]).name@,
    ensures
        r.wf(),
        r@.len() == params@.len(),
        forall|i: int|
            0 <= i < params@.len() ==> (#[trigger] r@[i]).0 == params@[i].name@ && r@[i].1
                == unbound_binding(params@[i].is_vec2),
{
    let mut out = ParamBindings::new();
    let n = params.len();
    let mut i: usize = 0;
    while i < n
        invariant
            n == params@.len(),
            i <= n,
            forall|a: int, b: int|
                0 <= a < b < params@.len() ==> (#[trigger] params@[a]).name@ != (
                #[trigger] params@[b]).name@,
            out.wf(),
            out@.len() == i,
            forall|k: int|
                0 <= k < i ==> (#[trigger] out@[k]).0 == params@[k].name@ && out@[k].1
                    == unbound_binding(params@[k].is_vec2),
        decreases n - i,
    {
        let ghost prev = out@;
        let p = &params[i];
        let binding = if p.is_vec2 {
            ParamBinding::TwoDim(None)
        } else {
            ParamBinding::OneDim(None)
        };
        out.insert(p.name.clone(), binding);
        proof {
            if has_name(prev, p.name@) {
                let k = index_of_name(prev, p.name@);
                assert(params@[k].name@ == params@[i as int].name@);
                assert(false);
            }
        }
        i = i + 1;
    }
    out
}

} // verus!
