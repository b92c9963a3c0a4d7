use crate::analyze_generics::deps_views;
use crate::error::{ErrorView, GenerationError};
use crate::generics::{FnDeps, FnDepsView};
use crate::input::{FnParam, FnParamView, InputFn, InputFnView, ParamPattern, fn_views, param_views};
use crate::text::clone_text;
use vstd::prelude::*;

verus! {

/// The place of the first parameter that is forwarded by its name: behind
/// the context parameter where the function takes one.
pub open spec fn forwarded_from(deps: FnDepsView) -> int {
    if deps.takes_context() {
        1
    } else {
        0
    }
}

/// The first parameter at or behind `start` that has no simple name.
pub open spec fn malformed_param_from(inputs: Seq<FnParamView>, start: int) -> Option<int>
    decreases inputs.len() - start,
{
    if start < 0 || start >= inputs.len() {
        None
    } else if inputs[start].pattern is Destructured {
        Some(start)
    } else {
        malformed_param_from(inputs, start + 1)
    }
}

/// The first forwarded parameter of a function that has no simple name.
pub open spec fn first_malformed(f: InputFnView, deps: FnDepsView) -> Option<int> {
    malformed_param_from(f.fn_sig.inputs, forwarded_from(deps))
}

/// The first function at or behind `start` with a forwarded parameter that
/// has no simple name.
pub open spec fn malformed_fn_from(fns: Seq<InputFnView>, deps: Seq<FnDepsView>, start: int) -> Option<
    int,
>
    decreases fns.len() - start,
{
    if start < 0 || start >= fns.len() {
        None
    } else if first_malformed(fns[start], deps[start]) is Some {
        Some(start)
    } else {
        malformed_fn_from(fns, deps, start + 1)
    }
}

/// The error for the first forwarded parameter of a group without a simple
/// name, if there is one.
pub open spec fn pattern_error(fns: Seq<InputFnView>, deps: Seq<FnDepsView>) -> Option<ErrorView> {
    match malformed_fn_from(fns, deps, 0) {
        Some(k) => Some(
            ErrorView::MalformedParameterPattern {
                fn_index: k,
                function: fns[k].fn_sig.ident,
                param_index: first_malformed(fns[k], deps[k])->Some_0,
            },
        ),
        None => None,
    }
}

/// What `malformed_param_from` finds has no simple name; it finds nothing
/// only where every parameter at and behind `start` has one.
pub proof fn lemma_malformed_param_from(inputs: Seq<FnParamView>, start: int)
    requires
        0 <= start,
    ensures
        match malformed_param_from(inputs, start) {
            Some(k) => start <= k < inputs.len() && inputs[k].pattern is Destructured,
            None => forall|j: int| start <= j < inputs.len() ==> inputs[j].pattern is Ident,
        },
    decreases inputs.len() - start,
{
    if start < inputs.len() && !(inputs[start].pattern is Destructured) {
        lemma_malformed_param_from(inputs, start + 1);
    }
}

/// What `malformed_fn_from` finds has a forwarded parameter without a
/// simple name; it finds nothing only where no function at or behind
/// `start` has one.
pub proof fn lemma_malformed_fn_from(fns: Seq<InputFnView>, deps: Seq<FnDepsView>, start: int)
    requires
        0 <= start,
    ensures
        match malformed_fn_from(fns, deps, start) {
            Some(k) => start <= k < fns.len() && first_malformed(fns[k], deps[k]) is Some,
            None => forall|j: int|
                start <= j < fns.len() ==> first_malformed(#[trigger] fns[j], deps[j]) is None,
        },
    decreases fns.len() - start,
{
    if start < fns.len() && first_malformed(fns[start], deps[start]) is None {
        lemma_malformed_fn_from(fns, deps, start + 1);
    }
}

fn find_malformed_param(inputs: &Vec<FnParam>, from: usize) -> (r: Option<usize>)
    ensures
        match r {
            Some(k) => malformed_param_from(param_views(inputs@), from as int) == Some(k as int),
            None => malformed_param_from(param_views(inputs@), from as int) is None,
        },
{
    let mut i: usize = from;
    while i < inputs.len()
        invariant
            from <= i,
            malformed_param_from(param_views(inputs@), from as int) == malformed_param_from(
                param_views(inputs@),
                i as int,
            ),
        decreases inputs.len() - i,
    {
        proof {
            assert(param_views(inputs@)[i as int] == inputs@[i as int]@);
        }
        match &inputs[i].pattern {
            ParamPattern::Destructured(_) => {
                return Some(i);
            },
            ParamPattern::Ident(_) => {},
        }
        i += 1;
    }
    None
}

/// Looks for a forwarded parameter without a simple name, function by
/// function.
pub fn check_patterns(fns: &Vec<&InputFn>, deps: &Vec<FnDeps>) -> (r: Result<(), GenerationError>)
    requires
        deps@.len() == fns@.len(),
    ensures
        match r {
            Ok(_) => pattern_error(fn_views(fns@), deps_views(deps@)) is None,
            Err(e) => pattern_error(fn_views(fns@), deps_views(deps@)) == Some(e@),
        },
{
    let mut i: usize = 0;
    while i < fns.len()
        invariant
            i <= fns.len(),
            deps@.len() == fns@.len(),
            malformed_fn_from(fn_views(fns@), deps_views(deps@), 0) == malformed_fn_from(
                fn_views(fns@),
                deps_views(deps@),
                i as int,
            ),
        decreases fns.len() - i,
    {
        proof {
            assert(fn_views(fns@)[i as int] == fns@[i as int]@);
            assert(deps_views(deps@)[i as int] == deps@[i as int]@);
        }
        let from: usize = if deps[i].takes_context() {
            1
        } else {
            0
        };
        match find_malformed_param(&fns[i].fn_sig.inputs, from) {
            Some(p) => {
                return Err(
                    GenerationError::MalformedParameterPattern {
                        fn_index: i,
                        function: clone_text(&fns[i].fn_sig.ident),
                        param_index: p,
                    },
                );
            },
            None => {},
        }
        i += 1;
    }
    Ok(())
}

} // verus!
