//! The binding data model: tracking-input references and the per-parameter
//! binding configuration, together with binding resolution.
//!
//! Scalar channel values and range endpoints are carried as fixed-point
//! integers in thousandths of a unit, so that binding resolution is exact
//! integer arithmetic.

use vstd::arithmetic::div_mod::{lemma_div_is_ordered_by_denominator, lemma_div_pos_is_pos};
use vstd::prelude::*;

use crate::keyed::KeyedList;

verus! {

/// One thousandth of a unit: the scale of all fixed-point scalar values.
pub const MILLI: i64 = 1000;

/// Largest magnitude, in thousandths of a unit, that a channel value or a
/// range endpoint may carry; it keeps binding resolution inside `i64`.
pub const SCALAR_LIMIT: i64 = 1_000_000_000;

/// A fixed-point scalar within the magnitude limit.
pub open spec fn scalar_ok(v: int) -> bool {
    -SCALAR_LIMIT <= v <= SCALAR_LIMIT
}

/// The six per-bone axes a tracking input can refer to.
#[derive(Clone, Copy, Debug, PartialEq, Eq)]
pub enum InputBoneKind {
    X,
    Y,
    Z,
    Roll,
    Pitch,
    Yaw,
}

/// The display name of each axis.
pub open spec fn axis_name(k: InputBoneKind) -> Seq<char> {
    match k {
        InputBoneKind::X => "X"@,
        InputBoneKind::Y => "Y"@,
        InputBoneKind::Z => "Z"@,
        InputBoneKind::Roll => "Roll"@,
        InputBoneKind::Pitch => "Pitch"@,
        InputBoneKind::Yaw => "Yaw"@,
    }
}

/// The axes in their presentation order.
pub open spec fn axis_order(a: int) -> InputBoneKind {
    if a == 0 {
        InputBoneKind::X
    } else if a == 1 {
        InputBoneKind::Y
    } else if a == 2 {
        InputBoneKind::Z
    } else if a == 3 {
        InputBoneKind::Roll
    } else if a == 4 {
        InputBoneKind::Pitch
    } else {
        InputBoneKind::Yaw
    }
}

impl InputBoneKind {
    pub fn name(&self) -> (r: &str)
        ensures
            r@ == axis_name(*self),
    {
        match self {
            InputBoneKind::X => "X",
            InputBoneKind::Y => "Y",
            InputBoneKind::Z => "Z",
            InputBoneKind::Roll => "Roll",
            InputBoneKind::Pitch => "Pitch",
            InputBoneKind::Yaw => "Yaw",
        }
    }
}

/// A reference into the tracking snapshot's namespace: no input at all, a
/// blendshape weight, or one axis of a bone.
#[derive(Clone, Debug, PartialEq, Eq)]
pub enum InputKind {
    NoInput,
    Blendshape(String),
    Bone(String, InputBoneKind),
}

/// The display name of an input reference.
pub open spec fn input_name(k: InputKind) -> Seq<char> {
    match k {
        InputKind::NoInput => "<none>"@,
        InputKind::Blendshape(n) => n@,
        InputKind::Bone(n, a) => n@ + " ("@ + axis_name(a) + ")"@,
    }
}

impl InputKind {
    pub fn name(&self) -> (r: String)
        ensures
            r@ == input_name(*self),
    {
        match self {
            InputKind::NoInput => String::from_str("<none>"),
            InputKind::Blendshape(name) => name.clone(),
            InputKind::Bone(name, kind) => {
                let mut s = name.clone();
                s.append(" (");
                s.append(kind.name());
                s.append(")");
                s
            },
        }
    }
}

/// How one parameter dimension follows a tracking input.
#[derive(Debug, PartialEq)]
pub enum BindingKind {
    Expr,
    Simple {
        input: InputKind,
        input_range: (i64, i64),
        output_range: (i64, i64),
        dampen: i64,
    },
}

/// The configuration a fresh Simple binding starts from: no input selected,
/// inputs between -30 and 30 units mapped onto outputs between -1 and 1.
pub open spec fn default_simple() -> BindingKind {
    BindingKind::Simple {
        input: InputKind::NoInput,
        input_range: (-30000i64, 30000i64),
        output_range: (-1000i64, 1000i64),
        dampen: 0,
    }
}

/// A binding's scalar fields are within the magnitude limit.
pub open spec fn binding_wf(b: BindingKind) -> bool {
    b matches BindingKind::Simple { input_range, output_range, .. } ==> scalar_ok(
        input_range.0 as int,
    ) && scalar_ok(input_range.1 as int) && scalar_ok(output_range.0 as int) && scalar_ok(
        output_range.1 as int,
    )
}

/// Why a binding could not be resolved.
#[derive(Clone, Copy, Debug, PartialEq, Eq)]
pub enum ResolveError {
    /// The input range has equal endpoints, so the remap would divide by zero.
    DegenerateRange,
    /// Expression bindings are declared but not implemented.
    Unimplemented,
}

/// Division with truncation toward zero, as the machine division of `i64`
/// behaves.
pub open spec fn trunc_div(x: int, d: int) -> int {
    if x == 0 {
        0
    } else if x > 0 && d > 0 {
        x / d
    } else if x < 0 && d < 0 {
        (x * -1) / (d * -1)
    } else if x < 0 {
        ((x * -1) / d) * -1
    } else {
        (x / (d * -1)) * -1
    }
}

/// The linear remap of `live` from the input range onto the output range.
pub open spec fn remap(live: int, in_lo: int, in_hi: int, out_lo: int, out_hi: int) -> int {
    trunc_div((live - in_lo) * (out_hi - out_lo), in_hi - in_lo) + out_lo
}

/// Truncating division never grows the dividend's magnitude.
pub proof fn lemma_trunc_div_bound(x: int, d: int)
    requires
        d != 0,
    ensures
        x >= 0 ==> -x <= trunc_div(x, d) <= x,
        x < 0 ==> x <= trunc_div(x, d) <= -x,
{
    if x == 0 {
    } else if x > 0 && d > 0 {
        lemma_div_pos_is_pos(x, d);
        lemma_div_is_ordered_by_denominator(x, 1, d);
    } else if x < 0 && d < 0 {
        lemma_div_pos_is_pos(x * -1, d * -1);
        lemma_div_is_ordered_by_denominator(x * -1, 1, d * -1);
    } else if x < 0 {
        lemma_div_pos_is_pos(x * -1, d);
        lemma_div_is_ordered_by_denominator(x * -1, 1, d);
    } else {
        lemma_div_pos_is_pos(x, d * -1);
        lemma_div_is_ordered_by_denominator(x, 1, d * -1);
    }
}

impl BindingKind {
    /// A fresh Simple binding with the default ranges.
    pub fn simple() -> (r: BindingKind)
        ensures
            r == default_simple(),
    {
        BindingKind::Simple {
            input: InputKind::NoInput,
            input_range: (-30000, 30000),
            output_range: (-1000, 1000),
            dampen: 0,
        }
    }

    /// A fresh Expression binding.
    pub fn expr() -> (r: BindingKind)
        ensures
            r == BindingKind::Expr,
    {
        BindingKind::Expr
    }

    /// Resolves this binding against a live channel value: a Simple binding
    /// linearly remaps the value from its input range onto its output range,
    /// a degenerate input range is rejected rather than divided by, and an
    /// Expression binding is not implemented.
    pub fn resolve(&self, live: i64) -> (r: Result<i64, ResolveError>)
        requires
            binding_wf(*self),
            scalar_ok(live as int),
        ensures
            *self matches BindingKind::Expr ==> r == Err::<i64, ResolveError>(
                ResolveError::Unimplemented,
            ),
            *self matches BindingKind::Simple { input_range, output_range, .. } ==> ((
            input_range.0 == input_range.1 ==> r == Err::<i64, ResolveError>(
                ResolveError::DegenerateRange,
            )) && (input_range.0 != input_range.1 ==> (r matches Ok(v) && v == remap(
                live as int,
                input_range.0 as int,
                input_range.1 as int,
                output_range.0 as int,
                output_range.1 as int,
            )))),
    {
        match self {
            BindingKind::Expr => Err(ResolveError::Unimplemented),
            BindingKind::Simple { input_range, output_range, .. } => {
                let (in_lo, in_hi) = *input_range;
                let (out_lo, out_hi) = *output_range;
                if in_hi == in_lo {
                    Err(ResolveError::DegenerateRange)
                } else {
                    let diff = live - in_lo;
                    let span = out_hi - out_lo;
                    proof {
                        assert(diff * span <= 4000000000000000000 && diff * span
                            >= -4000000000000000000) by (nonlinear_arith)
                            requires
                                -2000000000 <= diff <= 2000000000,
                                -2000000000 <= span <= 2000000000,
                        ;
                    }
                    let num = diff * span;
                    let den = in_hi - in_lo;
                    proof {
                        lemma_trunc_div_bound(num as int, den as int);
                    }
                    let q = num.checked_div(den).unwrap();
                    Ok(q + out_lo)
                }
            },
        }
    }
}

/// The binding configuration of one declared parameter: one dimension or two
/// independent dimensions, each configurable only as a whole.
#[derive(Debug)]
pub enum ParamBinding {
    OneDim(Option<BindingKind>),
    TwoDim(Option<(BindingKind, BindingKind)>),
}

/// Whether a binding has been configured for the parameter.
pub open spec fn param_is_bound(p: ParamBinding) -> bool {
    match p {
        ParamBinding::OneDim(v) => v is Some,
        ParamBinding::TwoDim(v) => v is Some,
    }
}

impl ParamBinding {
    /// Configures the parameter with fresh default Simple bindings, one per
    /// dimension.
    pub fn default_binding(&mut self)
        ensures
            *old(self) matches ParamBinding::OneDim(_) ==> *final(self) == ParamBinding::OneDim(
                Some(default_simple()),
            ),
            *old(self) matches ParamBinding::TwoDim(_) ==> *final(self) == ParamBinding::TwoDim(
                Some((default_simple(), default_simple())),
            ),
    {
        match self {
            ParamBinding::OneDim(v) => *v = Some(BindingKind::simple()),
            ParamBinding::TwoDim(v) => *v = Some((BindingKind::simple(), BindingKind::simple())),
        }
    }

    /// Removes any configured binding, keeping the parameter's dimension.
    pub fn clear_binding(&mut self)
        ensures
            *old(self) matches ParamBinding::OneDim(_) ==> *final(self) == ParamBinding::OneDim(
                None,
            ),
            *old(self) matches ParamBinding::TwoDim(_) ==> *final(self) == ParamBinding::TwoDim(
                None,
            ),
    {
        match self {
            ParamBinding::OneDim(v) => *v = None,
            ParamBinding::TwoDim(v) => *v = None,
        }
    }

    pub fn is_bound(&self) -> (r: bool)
        ensures
            r == param_is_bound(*self),
    {
        match self {
            ParamBinding::OneDim(v) => v.is_some(),
            ParamBinding::TwoDim(v) => v.is_some(),
        }
    }

    pub fn is_unbound(&self) -> (r: bool)
        ensures
            r == !param_is_bound(*self),
    {
        match self {
            ParamBinding::OneDim(v) => v.is_none(),
            ParamBinding::TwoDim(v) => v.is_none(),
        }
    }
}

/// The binding configuration of every parameter of the displayed asset,
/// keyed by parameter name.
pub type ParamBindings = KeyedList<ParamBinding>;

} // verus!
