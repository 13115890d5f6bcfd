//! What holds of the builder for every sequence of setter calls.
use vstd::prelude::*;

use crate::builder::MSERBuilder;
use crate::params::{Binary64, MserParams};

verus! {

/// Names of the nine tuning parameters.
#[derive(Clone, Copy, Debug, PartialEq, Eq, Structural)]
pub enum Param {
    Delta,
    MinArea,
    MaxArea,
    MaxVariation,
    MinDiversity,
    MaxEvolution,
    AreaThreshold,
    MinMargin,
    EdgeBlurSize,
}

/// The value of one parameter: an integer or a real.
#[derive(Clone, Copy, Debug, PartialEq, Eq, Structural)]
pub enum ParamValue {
    Int(i32),
    Real(Binary64),
}

/// One setter call of [`MSERBuilder`], with its argument.
#[derive(Clone, Copy, Debug, PartialEq, Eq, Structural)]
pub enum Setting {
    Delta(i32),
    MinArea(i32),
    MaxArea(i32),
    MaxVariation(Binary64),
    MinDiversity(Binary64),
    MaxEvolution(i32),
    AreaThreshold(Binary64),
    MinMargin(Binary64),
    EdgeBlurSize(i32),
}

impl Setting {
    /// The parameter this call sets.
    pub open spec fn param(self) -> Param {
        match self {
            Setting::Delta(_) => Param::Delta,
            Setting::MinArea(_) => Param::MinArea,
            Setting::MaxArea(_) => Param::MaxArea,
            Setting::MaxVariation(_) => Param::MaxVariation,
            Setting::MinDiversity(_) => Param::MinDiversity,
            Setting::MaxEvolution(_) => Param::MaxEvolution,
            Setting::AreaThreshold(_) => Param::AreaThreshold,
            Setting::MinMargin(_) => Param::MinMargin,
            Setting::EdgeBlurSize(_) => Param::EdgeBlurSize,
        }
    }

    /// The value this call sets.
    pub open spec fn value(self) -> ParamValue {
        match self {
            Setting::Delta(v) => ParamValue::Int(v),
            Setting::MinArea(v) => ParamValue::Int(v),
            Setting::MaxArea(v) => ParamValue::Int(v),
            Setting::MaxVariation(v) => ParamValue::Real(v),
            Setting::MinDiversity(v) => ParamValue::Real(v),
            Setting::MaxEvolution(v) => ParamValue::Int(v),
            Setting::AreaThreshold(v) => ParamValue::Real(v),
            Setting::MinMargin(v) => ParamValue::Real(v),
            Setting::EdgeBlurSize(v) => ParamValue::Int(v),
        }
    }
}

/// The value of parameter `p` in `params`.
pub open spec fn param_value(params: MserParams, p: Param) -> ParamValue {
    match p {
        Param::Delta => ParamValue::Int(params.delta),
        Param::MinArea => ParamValue::Int(params.min_area),
        Param::MaxArea => ParamValue::Int(params.max_area),
        Param::MaxVariation => ParamValue::Real(params.max_variation),
        Param::MinDiversity => ParamValue::Real(params.min_diversity),
        Param::MaxEvolution => ParamValue::Int(params.max_evolution),
        Param::AreaThreshold => ParamValue::Real(params.area_threshold),
        Param::MinMargin => ParamValue::Real(params.min_margin),
        Param::EdgeBlurSize => ParamValue::Int(params.edge_blur_size),
    }
}

/// The builder that the setter call `s` returns on `b`, as the setters'
/// contracts state it.
pub open spec fn apply(b: MSERBuilder, s: Setting) -> MSERBuilder {
    match s {
        Setting::Delta(v) => MSERBuilder { delta: Some(v), ..b },
        Setting::MinArea(v) => MSERBuilder { min_area: Some(v), ..b },
        Setting::MaxArea(v) => MSERBuilder { max_area: Some(v), ..b },
        Setting::MaxVariation(v) => MSERBuilder { max_variation: Some(v), ..b },
        Setting::MinDiversity(v) => MSERBuilder { min_diversity: Some(v), ..b },
        Setting::MaxEvolution(v) => MSERBuilder { max_evolution: Some(v), ..b },
        Setting::AreaThreshold(v) => MSERBuilder { area_threshold: Some(v), ..b },
        Setting::MinMargin(v) => MSERBuilder { min_margin: Some(v), ..b },
        Setting::EdgeBlurSize(v) => MSERBuilder { edge_blur_size: Some(v), ..b },
    }
}

/// The builder after the calls `calls`, made in order, starting from `b`.
pub open spec fn apply_all(b: MSERBuilder, calls: Seq<Setting>) -> MSERBuilder
    decreases calls.len(),
{
    if calls.len() == 0 {
        b
    } else {
        apply(apply_all(b, calls.drop_last()), calls.last())
    }
}

/// The last call in `calls` that sets parameter `p`, if any.
pub open spec fn last_call_for(calls: Seq<Setting>, p: Param) -> Option<Setting>
    decreases calls.len(),
{
    if calls.len() == 0 {
        None
    } else if calls.last().param() == p {
        Some(calls.last())
    } else {
        last_call_for(calls.drop_last(), p)
    }
}

/// A builder with no override resolves to the documented default of every
/// parameter.
pub proof fn lemma_empty_builder_resolves_to_defaults()
    ensures
        MSERBuilder::spec_empty().spec_resolve() == MserParams::spec_defaults(),
{
}

/// After any sequence of setter calls, each parameter resolves to the value
/// of the last call that set it; a parameter that no call set keeps the value
/// it resolved to before the calls.
pub proof fn lemma_last_setter_call_wins(b: MSERBuilder, calls: Seq<Setting>, p: Param)
    ensures
        param_value(apply_all(b, calls).spec_resolve(), p) == match last_call_for(calls, p) {
            Some(s) => s.value(),
            None => param_value(b.spec_resolve(), p),
        },
    decreases calls.len(),
{
    if calls.len() > 0 {
        lemma_last_setter_call_wins(b, calls.drop_last(), p);
    }
}

} // verus!
