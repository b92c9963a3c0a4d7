use crate::analyze_generics::{
    TraitDependencyModeView, consistent, detected_mode, effective_deps, expected_deps, group_deps,
    lemma_conflict_iff_inconsistent, lemma_dependency_conflict_from, lemma_single_function_fits,
    sigs_of,
};
use crate::entrait_fn::{
    analyzed, any_async_method, generate, impl_markers, is_generated, pattern_text, self_ty_of,
    trait_markers, wants_async_trait, with_strategy,
};
use crate::error::{ErrorView, GenerationError};
use crate::generics::{
    FnDepsView, begins_with, distinct_names, has_param, is_dep_param, lemma_has_param_stays,
    lemma_merge_group_distinct, lemma_merge_group_keeps, lemma_one_entry_for_a_name, merge_group,
    names_of, same_declaration,
};
use crate::input::{FnInputMode, FnParamView, InputFnView};
use crate::naming::{decimal, lemma_decimal_not_empty, lemma_fresh_name};
use crate::opt::{AsyncStrategy, AttrView, Opts, VisibilityView};
use crate::output::{ArtifactView, DelegationView, GeneratedArtifact, Marker, MethodSigView};
use crate::signature::{forwarded_from, pattern_error};
use crate::strategy::{
    AsyncRepresentation, any_async, established, representation, request, selected_strategy,
};
use crate::text::Text;
use vstd::prelude::*;

verus! {

/// The outcome of a generation as a value: the artifact or the error.
pub open spec fn outcome(r: Result<GeneratedArtifact, GenerationError>) -> Result<
    ArtifactView,
    ErrorView,
> {
    match r {
        Ok(artifact) => Ok(artifact@),
        Err(e) => Err(e@),
    }
}

/// Generation is a function of the group and the configuration: two
/// outcomes for the same input are the same, artifact for artifact and
/// error for error.
pub proof fn law_deterministic(
    input_mode: FnInputMode,
    module: Text,
    attr: AttrView,
    fns: Seq<InputFnView>,
    first: Result<GeneratedArtifact, GenerationError>,
    second: Result<GeneratedArtifact, GenerationError>,
)
    requires
        is_generated(first, generate(input_mode, module, attr, fns)),
        is_generated(second, generate(input_mode, module, attr, fns)),
    ensures
        outcome(first) == outcome(second),
        outcome(first) == generate(input_mode, module, attr, fns),
{
}

/// The methods of interface and implementation stand in declaration order:
/// there are as many as functions, and the entry at each place is the
/// method of the function at that place and calls that function. Every
/// method has a receiver.
pub proof fn law_order_stable(
    input_mode: FnInputMode,
    module: Text,
    attr: AttrView,
    fns: Seq<InputFnView>,
    i: int,
)
    requires
        generate(input_mode, module, attr, fns) is Ok,
        0 <= i < fns.len(),
    ensures
        ({
            let a = generate(input_mode, module, attr, fns)->Ok_0;
            &&& a.trait_def.items.len() == fns.len()
            &&& a.impl_block.items.len() == fns.len()
            &&& a.trait_def.items[i].sig.ident == fns[i].fn_sig.ident
            &&& a.impl_block.items[i].sig.ident == fns[i].fn_sig.ident
            &&& a.impl_block.items[i].sig == a.trait_def.items[i].sig
            &&& a.impl_block.items[i].call.callee == fns[i].fn_sig.ident
            &&& a.trait_def.items[i].sig.receiver is Some
        }),
{
}

/// A group whose dependencies do not go together generates nothing: the
/// outcome is the error for conflicting dependencies, at a function of the
/// group.
pub proof fn law_inconsistent_dependencies_fail(
    input_mode: FnInputMode,
    module: Text,
    attr: AttrView,
    fns: Seq<InputFnView>,
)
    requires
        !consistent(group_deps(fns, attr.context_type), attr.context_type),
    ensures
        generate(input_mode, module, attr, fns) is Err,
        generate(input_mode, module, attr, fns)->Err_0 is ConflictingDependencyMode,
        0 <= generate(input_mode, module, attr, fns)->Err_0->ConflictingDependencyMode_fn_index
            < fns.len(),
{
    let deps = group_deps(fns, attr.context_type);
    lemma_conflict_iff_inconsistent(deps, attr.context_type);
    lemma_dependency_conflict_from(
        effective_deps(deps, attr.context_type),
        expected_deps(deps, attr.context_type),
        0,
    );
}

/// Only a group whose dependencies go together generates anything, and no
/// such group fails for its dependencies.
pub proof fn law_consistent_dependencies_pass(
    input_mode: FnInputMode,
    module: Text,
    attr: AttrView,
    fns: Seq<InputFnView>,
)
    requires
        consistent(group_deps(fns, attr.context_type), attr.context_type),
    ensures
        !(generate(input_mode, module, attr, fns) is Err && generate(
            input_mode,
            module,
            attr,
            fns,
        )->Err_0 is ConflictingDependencyMode),
{
    let deps = group_deps(fns, attr.context_type);
    lemma_conflict_iff_inconsistent(deps, attr.context_type);
}

/// One function alone is never in conflict, whatever it depends on and
/// whatever context type is configured: generation does not fail for its
/// dependency.
pub proof fn law_single_function_has_no_conflict(
    input_mode: FnInputMode,
    module: Text,
    attr: AttrView,
    f: InputFnView,
)
    ensures
        !(generate(input_mode, module, attr, seq![f]) is Err && generate(
            input_mode,
            module,
            attr,
            seq![f],
        )->Err_0 is ConflictingDependencyMode),
{
    lemma_single_function_fits(group_deps(seq![f], attr.context_type), attr.context_type);
}

/// A configured context type is what the interface is implemented for,
/// also where a function names a generic parameter as its context: the
/// parameter then stands for the configured type, the method has its
/// receiver, and the call hands the receiver on.
pub proof fn law_context_type_is_implemented(
    input_mode: FnInputMode,
    module: Text,
    attr: AttrView,
    fns: Seq<InputFnView>,
    i: int,
)
    requires
        attr.context_type is Some,
        generate(input_mode, module, attr, fns) is Ok,
        0 <= i < fns.len(),
    ensures
        ({
            let a = generate(input_mode, module, attr, fns)->Ok_0;
            let deps = group_deps(fns, attr.context_type)[i];
            &&& a.impl_block.self_ty == attr.context_type->Some_0
            &&& a.impl_block.params == a.trait_def.generics
            &&& deps is Generic ==> a.impl_block.items[i].call.pass_self
                && a.impl_block.items[i].sig.receiver == Some(fns[i].fn_sig.inputs[0].borrow)
        }),
{
}

/// A call: the function called and the values handed to it, in order.
pub struct Call {
    pub callee: Text,
    pub arguments: Seq<int>,
}

/// The value bound to `name` where the parameters at and behind `start` are
/// bound to `values` place by place.
pub open spec fn bound_value(inputs: Seq<FnParamView>, values: Seq<int>, name: Text, start: int) -> int
    decreases inputs.len() - start,
{
    if start < 0 || start >= inputs.len() {
        0
    } else if pattern_text(inputs[start].pattern) == name {
        values[start]
    } else {
        bound_value(inputs, values, name, start + 1)
    }
}

/// The call that a delegating method makes when it is invoked on
/// `receiver` with `values` for its parameters.
pub open spec fn delegated_call(
    sig: MethodSigView,
    call: DelegationView,
    receiver: int,
    values: Seq<int>,
) -> Call {
    Call {
        callee: call.callee,
        arguments: (if call.pass_self {
            seq![receiver]
        } else {
            Seq::empty()
        }) + Seq::new(
            call.arguments.len(),
            |j: int| bound_value(sig.inputs, values, call.arguments[j], 0),
        ),
    }
}

/// The call of the function itself with the context `receiver`, where it
/// takes one, and `values` for its other parameters.
pub open spec fn direct_call(f: InputFnView, deps: FnDepsView, receiver: int, values: Seq<int>) -> Call {
    Call {
        callee: f.fn_sig.ident,
        arguments: (if deps.takes_context() {
            seq![receiver]
        } else {
            Seq::empty()
        }) + values,
    }
}

/// Whether no two parameters have one name.
pub open spec fn distinct_params(inputs: Seq<FnParamView>) -> bool {
    forall|i: int, j: int|
        0 <= i < j < inputs.len() ==> pattern_text((#[trigger] inputs[i]).pattern)
            != pattern_text((#[trigger] inputs[j]).pattern)
}

proof fn lemma_bound_value(inputs: Seq<FnParamView>, values: Seq<int>, j: int, start: int)
    requires
        distinct_params(inputs),
        0 <= start <= j < inputs.len(),
    ensures
        bound_value(inputs, values, pattern_text(inputs[j].pattern), start)
            == values[j],
    decreases j - start,
{
    if start < j {
        lemma_bound_value(inputs, values, j, start + 1);
    }
}

/// Invoking the generated method of a function on a receiver that stands
/// for the context, with values for its parameters, calls that function
/// with the context in front, if the function takes one, and the same
/// values in the same order. This holds for a function whose parameters
/// have distinct names.
pub proof fn law_delegation(
    input_mode: FnInputMode,
    module: Text,
    attr: AttrView,
    fns: Seq<InputFnView>,
    i: int,
    receiver: int,
    values: Seq<int>,
)
    requires
        generate(input_mode, module, attr, fns) is Ok,
        0 <= i < fns.len(),
        distinct_params(fns[i].fn_sig.inputs),
        values.len() == generate(input_mode, module, attr, fns)->Ok_0.impl_block.items[i].sig.inputs.len(),
    ensures
        ({
            let a = generate(input_mode, module, attr, fns)->Ok_0;
            let deps = group_deps(fns, attr.context_type)[i];
            &&& delegated_call(
                a.impl_block.items[i].sig,
                a.impl_block.items[i].call,
                receiver,
                values,
            ) == direct_call(fns[i], deps, receiver, values)
            &&& a.impl_block.items[i].call.pass_self == deps.takes_context()
            &&& a.impl_block.items[i].sig.inputs.len() + (if deps.takes_context() {
                1int
            } else {
                0int
            }) == fns[i].fn_sig.inputs.len()
        }),
{
    let a = generate(input_mode, module, attr, fns)->Ok_0;
    let deps = group_deps(fns, attr.context_type)[i];
    let item = a.impl_block.items[i];
    let inputs = item.sig.inputs;
    let from = forwarded_from(deps);
    assert(inputs == fns[i].fn_sig.inputs.skip(from));
    assert(distinct_params(inputs)) by {
        assert forall|p: int, q: int| 0 <= p < q < inputs.len() implies pattern_text(
            (#[trigger] inputs[p]).pattern,
        ) != pattern_text((#[trigger] inputs[q]).pattern) by {
            assert(inputs[p] == fns[i].fn_sig.inputs[p + from]);
            assert(inputs[q] == fns[i].fn_sig.inputs[q + from]);
        }
    }
    let bound = Seq::new(
        item.call.arguments.len(),
        |j: int| bound_value(inputs, values, item.call.arguments[j], 0),
    );
    assert(bound =~= values) by {
        assert forall|j: int| 0 <= j < inputs.len() implies bound[j] == values[j] by {
            lemma_bound_value(inputs, values, j, 0);
        }
    }
}

/// The interface of a scope for which no access level was configured is
/// visible to the enclosing scope, not private to the scope it is written
/// in, and it is made visible outside the scope at that level.
pub proof fn law_visibility_widened(module: Text, attr: AttrView, fns: Seq<InputFnView>)
    requires
        attr.trait_visibility is Inherited,
        generate(FnInputMode::Module, module, attr, fns) is Ok,
    ensures
        ({
            let a = generate(FnInputMode::Module, module, attr, fns)->Ok_0;
            &&& a.trait_def.visibility == VisibilityView::Super
            &&& !(a.trait_def.visibility is Inherited)
            &&& a.reexport is Some
            &&& a.reexport->Some_0.visibility == VisibilityView::Super
        }),
{
}

/// A configured access level is passed on as it is, and so is any access
/// level of the interface of one function.
pub proof fn law_visibility_kept(
    input_mode: FnInputMode,
    module: Text,
    attr: AttrView,
    fns: Seq<InputFnView>,
)
    requires
        input_mode == FnInputMode::SingleFn || !(attr.trait_visibility is Inherited),
        generate(input_mode, module, attr, fns) is Ok,
    ensures
        generate(input_mode, module, attr, fns)->Ok_0.trait_def.visibility == attr.trait_visibility,
{
}

/// Whether function `i` of the artifact is represented by an associated
/// future type, declared on the interface and bound on the implementation.
pub open spec fn has_future_fragment(a: ArtifactView, i: int) -> bool {
    a.trait_def.items[i].associated_fut_decl is Some || a.impl_block.items[i].associated_fut_impl is Some
}

/// Whether function `i` of the artifact is an asynchronous method under
/// the marker of the outside framework.
pub open spec fn has_compatibility_marker(a: ArtifactView, i: int) -> bool {
    (a.trait_def.markers.contains(Marker::AsyncTrait) || a.impl_block.markers.contains(
        Marker::AsyncTrait,
    )) && (a.trait_def.items[i].sig.asyncness || a.impl_block.items[i].sig.asyncness)
}

/// Whether function `i` of the artifact is an asynchronous method in its
/// native form, with nothing added.
pub open spec fn has_native_form(a: ArtifactView, i: int) -> bool {
    !a.trait_def.markers.contains(Marker::AsyncTrait) && !a.impl_block.markers.contains(
        Marker::AsyncTrait,
    ) && a.trait_def.items[i].sig.asyncness && a.impl_block.items[i].sig.asyncness
}

/// An asynchronous function is represented in exactly one way: by its
/// future type, under the marker of the outside framework, or in its
/// native form. Interface and implementation agree on it, and the call is
/// awaited unless the future type stands for it.
pub proof fn law_one_async_representation(
    input_mode: FnInputMode,
    module: Text,
    attr: AttrView,
    fns: Seq<InputFnView>,
    i: int,
)
    requires
        generate(input_mode, module, attr, fns) is Ok,
        0 <= i < fns.len(),
        fns[i].fn_sig.asyncness,
    ensures
        ({
            let a = generate(input_mode, module, attr, fns)->Ok_0;
            let strategy = selected_strategy(fns, attr.opts.async_strategy)->Ok_0;
            &&& has_future_fragment(a, i) <==> strategy == AsyncStrategy::AssociatedFuture
            &&& has_compatibility_marker(a, i) <==> strategy == AsyncStrategy::AsyncTrait
            &&& has_native_form(a, i) <==> strategy == AsyncStrategy::NoHack
            &&& a.trait_def.items[i].associated_fut_decl is Some
                <==> a.impl_block.items[i].associated_fut_impl is Some
            &&& a.trait_def.markers.contains(Marker::AsyncTrait) <==> a.impl_block.markers.contains(
                Marker::AsyncTrait,
            )
            &&& a.impl_block.items[i].call.dot_await <==> !has_future_fragment(a, i)
        }),
{
    let a = generate(input_mode, module, attr, fns)->Ok_0;
    let strategy = selected_strategy(fns, attr.opts.async_strategy)->Ok_0;
    let deps = group_deps(fns, attr.context_type);
    let trait_fns = analyzed(fns, deps, strategy);
    let opts = with_strategy(attr.opts, strategy);
    let mode = detected_mode(fns, attr.context_type)->Ok_0;
    if strategy != AsyncStrategy::AssociatedFuture {
        assert(trait_fns[i].entrait_sig.sig.asyncness);
        assert(any_async_method(trait_fns));
    }
    lemma_markers(opts, mode, any_async_method(trait_fns));
}

/// The marker for asynchronous interface methods is among the markers
/// exactly where it is wanted.
pub proof fn lemma_markers(
    opts: Opts,
    mode: TraitDependencyModeView,
    any_async: bool,
)
    ensures
        trait_markers(opts, mode, any_async).contains(Marker::AsyncTrait)
            <==> wants_async_trait(opts, any_async),
        impl_markers(opts, any_async).contains(Marker::AsyncTrait)
            <==> wants_async_trait(opts, any_async),
{
    let t = trait_markers(opts, mode, any_async);
    let m = impl_markers(opts, any_async);
    if wants_async_trait(opts, any_async) {
        assert(t[t.len() - 1] == Marker::AsyncTrait);
        assert(m[0] == Marker::AsyncTrait);
    }
}

/// Nothing asynchronous is emitted for a group without an asynchronous
/// function: no future type, no marker, no asynchronous method, whatever
/// the strategy.
pub proof fn law_no_async_no_scaffolding(
    input_mode: FnInputMode,
    module: Text,
    attr: AttrView,
    fns: Seq<InputFnView>,
    i: int,
)
    requires
        generate(input_mode, module, attr, fns) is Ok,
        !any_async(fns),
        0 <= i < fns.len(),
    ensures
        ({
            let a = generate(input_mode, module, attr, fns)->Ok_0;
            &&& !a.trait_def.markers.contains(Marker::AsyncTrait)
            &&& !a.impl_block.markers.contains(Marker::AsyncTrait)
            &&& !has_future_fragment(a, i)
            &&& !a.trait_def.items[i].sig.asyncness
            &&& !a.impl_block.items[i].call.dot_await
        }),
{
    let strategy = selected_strategy(fns, attr.opts.async_strategy)->Ok_0;
    let deps = group_deps(fns, attr.context_type);
    let trait_fns = analyzed(fns, deps, strategy);
    assert(!any_async_method(trait_fns)) by {
        if any_async_method(trait_fns) {
            let k = choose|k: int|
                0 <= k < trait_fns.len() && (#[trigger] trait_fns[k]).entrait_sig.sig.asyncness;
            assert(fns[k].fn_sig.asyncness);
        }
    }
    let opts = with_strategy(attr.opts, strategy);
    let mode = detected_mode(fns, attr.context_type)->Ok_0;
    lemma_markers(opts, mode, false);
}

/// Once the configuration or a function forces a strategy, the group keeps
/// it: what is established behind that point is the same strategy.
pub proof fn lemma_established_stays(
    fns: Seq<InputFnView>,
    configured: AsyncStrategy,
    upto: int,
    later: int,
)
    requires
        upto <= later,
        established(fns, configured, upto).forces(),
    ensures
        established(fns, configured, later) == established(fns, configured, upto),
    decreases later - upto,
{
    if upto < later {
        lemma_established_stays(fns, configured, upto, later - 1);
    }
}

/// Where the configuration or an asynchronous function of the group forces
/// a strategy, the group's strategy is a forced one: no asynchronous method
/// is left in its native form.
pub proof fn law_forced_strategy_applies(fns: Seq<InputFnView>, configured: AsyncStrategy, i: int)
    requires
        configured.forces() || (0 <= i < fns.len() && request(fns[i]) is Some),
    ensures
        established(fns, configured, fns.len() as int).forces(),
{
    if configured.forces() {
        lemma_established_stays(fns, configured, 0, fns.len() as int);
    } else {
        assert(established(fns, configured, i + 1).forces());
        lemma_established_stays(fns, configured, i + 1, fns.len() as int);
    }
}

/// No two generic parameters of the interface have one name, and none of
/// the implementation: the name of the dependency parameter is none of
/// the group's.
pub proof fn law_parameter_names_unique(
    input_mode: FnInputMode,
    module: Text,
    attr: AttrView,
    fns: Seq<InputFnView>,
)
    requires
        generate(input_mode, module, attr, fns) is Ok,
    ensures
        distinct_names(generate(input_mode, module, attr, fns)->Ok_0.trait_def.generics),
        distinct_names(generate(input_mode, module, attr, fns)->Ok_0.impl_block.params),
{
    let a = generate(input_mode, module, attr, fns)->Ok_0;
    let deps = group_deps(fns, attr.context_type);
    let sigs = sigs_of(fns);
    lemma_merge_group_distinct(sigs, deps, fns.len() as int);
    let generics = a.trait_def.generics;
    let mode = detected_mode(fns, attr.context_type)->Ok_0;
    match mode {
        TraitDependencyModeView::Generic { dep_param, origin, bounds } => {
            lemma_decimal_not_empty(origin as nat);
            lemma_fresh_name(
                dep_param,
                decimal(origin as nat),
                names_of(generics),
            );
            let params = a.impl_block.params;
            let own = self_ty_of(mode, generics);
            assert forall|p: int, q: int| 0 <= p < q < params.len() implies (#[trigger] params[p]).name
                != (#[trigger] params[q]).name by {
                assert(params[q] == generics[q - 1]);
                if p == 0 {
                    assert(names_of(generics)[q - 1] == generics[q - 1].name);
                } else {
                    assert(params[p] == generics[p - 1]);
                }
            }
        },
        TraitDependencyModeView::Concrete(_) => {},
    }
}


/// Every generic parameter of every function of a group, but its
/// dependency parameter, is a generic parameter of the interface, under
/// its name and with its bounds.
pub proof fn law_parameters_united(
    input_mode: FnInputMode,
    module: Text,
    attr: AttrView,
    fns: Seq<InputFnView>,
    i: int,
    j: int,
)
    requires
        generate(input_mode, module, attr, fns) is Ok,
        0 <= i < fns.len(),
        0 <= j < fns[i].fn_sig.generics.len(),
        !is_dep_param(
            group_deps(fns, attr.context_type)[i],
            fns[i].fn_sig.generics[j].name,
        ),
    ensures
        has_param(
            generate(input_mode, module, attr, fns)->Ok_0.trait_def.generics,
            fns[i].fn_sig.generics[j],
        ),
{
    let deps = group_deps(fns, attr.context_type);
    let sigs = sigs_of(fns);
    let n = fns.len() as int;
    lemma_merge_group_keeps(sigs, deps, n, i + 1);
    lemma_merge_group_keeps(sigs, deps, i + 1, i + 1);
    let part = merge_group(sigs, deps, i + 1)->Ok_0;
    let all = merge_group(sigs, deps, n)->Ok_0;
    assert(sigs[i].generics[j] == fns[i].fn_sig.generics[j]);
    assert(has_param(part, sigs[i].generics[j]));
    lemma_has_param_stays(part, all, fns[i].fn_sig.generics[j]);
}

/// The generic parameters that the first functions of a group give stand
/// in front of those that later functions add: the order is that of first
/// occurrence.
pub proof fn law_parameters_in_first_seen_order(
    input_mode: FnInputMode,
    module: Text,
    attr: AttrView,
    fns: Seq<InputFnView>,
    upto: int,
)
    requires
        generate(input_mode, module, attr, fns) is Ok,
        0 <= upto <= fns.len(),
    ensures
        ({
            let first = merge_group(
                sigs_of(fns),
                group_deps(fns, attr.context_type),
                upto,
            );
            &&& first is Ok
            &&& begins_with(
                generate(input_mode, module, attr, fns)->Ok_0.trait_def.generics,
                first->Ok_0,
            )
        }),
{
    lemma_merge_group_keeps(
        sigs_of(fns),
        group_deps(fns, attr.context_type),
        fns.len() as int,
        upto,
    );
}

/// The decision on the representation of asynchronous methods is made once
/// for the group and shows in what is generated: nothing asynchronous
/// where it is not needed, and else, for every asynchronous function, the
/// native form, the future type or the marker, as decided.
pub proof fn law_representation_applied(
    input_mode: FnInputMode,
    module: Text,
    attr: AttrView,
    fns: Seq<InputFnView>,
    i: int,
)
    requires
        generate(input_mode, module, attr, fns) is Ok,
        0 <= i < fns.len(),
    ensures
        ({
            let a = generate(input_mode, module, attr, fns)->Ok_0;
            let strategy = selected_strategy(fns, attr.opts.async_strategy)->Ok_0;
            match representation(strategy, any_async(fns)) {
                AsyncRepresentation::NotNeeded => !has_future_fragment(a, i)
                    && !has_compatibility_marker(a, i) && !has_native_form(a, i),
                AsyncRepresentation::Native => fns[i].fn_sig.asyncness ==> has_native_form(a, i),
                AsyncRepresentation::AssociatedFuture => fns[i].fn_sig.asyncness ==> has_future_fragment(a, i),
                AsyncRepresentation::CompatibilityAttribute => fns[i].fn_sig.asyncness ==> has_compatibility_marker(a, i),
            }
        }),
{
    if any_async(fns) {
        if fns[i].fn_sig.asyncness {
            law_one_async_representation(input_mode, module, attr, fns, i);
        }
    } else {
        law_no_async_no_scaffolding(input_mode, module, attr, fns, i);
    }
}

/// Where the configuration or an asynchronous function of the group forces
/// a strategy, no asynchronous function of the group is left in its native
/// form: each has its future type or stands under the marker, and not both.
pub proof fn law_forced_strategy_reaches_all(
    input_mode: FnInputMode,
    module: Text,
    attr: AttrView,
    fns: Seq<InputFnView>,
    forcing: int,
    i: int,
)
    requires
        generate(input_mode, module, attr, fns) is Ok,
        attr.opts.async_strategy.forces() || (0 <= forcing < fns.len() && request(fns[forcing]) is Some),
        0 <= i < fns.len(),
        fns[i].fn_sig.asyncness,
    ensures
        ({
            let a = generate(input_mode, module, attr, fns)->Ok_0;
            &&& !has_native_form(a, i)
            &&& has_future_fragment(a, i) != has_compatibility_marker(a, i)
        }),
{
    law_forced_strategy_applies(fns, attr.opts.async_strategy, forcing);
    law_one_async_representation(input_mode, module, attr, fns, i);
}

/// Two functions of a group that declare a generic parameter of one name
/// otherwise, neither of them as its dependency parameter, generate
/// nothing: where the dependencies go together and every forwarded
/// parameter has a simple name, the outcome is the error for conflicting
/// bounds.
pub proof fn law_conflicting_bounds_fail(
    input_mode: FnInputMode,
    module: Text,
    attr: AttrView,
    fns: Seq<InputFnView>,
    i: int,
    p: int,
    j: int,
    q: int,
)
    requires
        0 <= i < fns.len(),
        0 <= j < fns.len(),
        0 <= p < fns[i].fn_sig.generics.len(),
        0 <= q < fns[j].fn_sig.generics.len(),
        fns[i].fn_sig.generics[p].name == fns[j].fn_sig.generics[q].name,
        !same_declaration(fns[i].fn_sig.generics[p], fns[j].fn_sig.generics[q]),
        !is_dep_param(group_deps(fns, attr.context_type)[i], fns[i].fn_sig.generics[p].name),
        !is_dep_param(group_deps(fns, attr.context_type)[j], fns[j].fn_sig.generics[q].name),
        consistent(group_deps(fns, attr.context_type), attr.context_type),
        pattern_error(fns, group_deps(fns, attr.context_type)) is None,
    ensures
        generate(input_mode, module, attr, fns) is Err,
        generate(input_mode, module, attr, fns)->Err_0 is ConflictingGenericBounds,
{
    let deps = group_deps(fns, attr.context_type);
    let sigs = sigs_of(fns);
    let n = fns.len() as int;
    lemma_conflict_iff_inconsistent(deps, attr.context_type);
    if merge_group(sigs, deps, n) is Ok {
        let all = merge_group(sigs, deps, n)->Ok_0;
        lemma_merge_group_distinct(sigs, deps, n);
        lemma_merge_group_keeps(sigs, deps, n, i + 1);
        lemma_merge_group_keeps(sigs, deps, i + 1, i + 1);
        lemma_merge_group_keeps(sigs, deps, n, j + 1);
        lemma_merge_group_keeps(sigs, deps, j + 1, j + 1);
        let a = fns[i].fn_sig.generics[p];
        let b = fns[j].fn_sig.generics[q];
        assert(sigs[i].generics[p] == a);
        assert(sigs[j].generics[q] == b);
        lemma_has_param_stays(merge_group(sigs, deps, i + 1)->Ok_0, all, a);
        lemma_has_param_stays(merge_group(sigs, deps, j + 1)->Ok_0, all, b);
        lemma_one_entry_for_a_name(all, a, b);
    }
}

} // verus!
