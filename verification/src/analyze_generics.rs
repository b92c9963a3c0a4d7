use crate::error::{ErrorView, GenerationError};
use crate::generics::{
    FnDeps, FnDepsView, GenericsAnalyzer, TraitGenerics, classify, compatible, merge_group,
};
use crate::input::{GenericParamView, InputFn, InputFnView, SignatureView, fn_views};
use crate::text::{Text, clone_text, extend_new, opt_text, texts, union_texts};
use vstd::prelude::*;
use vstd::string::*;

verus! {

/// The views of a list of dependencies, in order.
pub open spec fn deps_views(v: Seq<FnDeps>) -> Seq<FnDepsView> {
    v.map_values(|d: FnDeps| d@)
}

/// The dependency of each function of a group, in declaration order.
pub open spec fn group_deps(fns: Seq<InputFnView>, context_type: Option<Text>) -> Seq<FnDepsView> {
    Seq::new(fns.len(), |i: int| classify(fns[i].fn_sig, context_type))
}

/// The dependency of a function as the group takes it: with a context type
/// configured, a generic dependency parameter stands for that type, so the
/// function depends on the configured type; anything else is taken as it
/// was classified.
pub open spec fn effective(deps: FnDepsView, context_type: Option<Text>) -> FnDepsView {
    match (context_type, deps) {
        (Some(context), FnDepsView::Generic { .. }) => FnDepsView::Concrete(context),
        _ => deps,
    }
}

/// The dependency of each function as the group takes it, in order.
pub open spec fn effective_deps(deps: Seq<FnDepsView>, context_type: Option<Text>) -> Seq<
    FnDepsView,
> {
    Seq::new(deps.len(), |i: int| effective(deps[i], context_type))
}

/// The dependency that every function of a group is held against: that of
/// its first function, as the group takes it.
pub open spec fn expected_deps(deps: Seq<FnDepsView>, context_type: Option<Text>) -> FnDepsView {
    if deps.len() > 0 {
        effective(deps[0], context_type)
    } else {
        FnDepsView::NoDeps
    }
}

/// The first function at or behind `start` whose dependency does not go with
/// `expected`.
pub open spec fn dependency_conflict_from(
    deps: Seq<FnDepsView>,
    expected: FnDepsView,
    start: int,
) -> Option<int>
    decreases deps.len() - start,
{
    if start < 0 || start >= deps.len() {
        None
    } else if !compatible(expected, deps[start]) {
        Some(start)
    } else {
        dependency_conflict_from(deps, expected, start + 1)
    }
}

/// The first function of the group whose dependency does not go with that
/// of the first one, if there is one.
pub open spec fn dependency_conflict(deps: Seq<FnDepsView>, context_type: Option<Text>) -> Option<
    int,
> {
    dependency_conflict_from(
        effective_deps(deps, context_type),
        expected_deps(deps, context_type),
        0,
    )
}

/// Whether the dependencies of a group go together: as the group takes
/// them, any two are compatible. A configured context type alone is never
/// what a function is in conflict with.
pub open spec fn consistent(deps: Seq<FnDepsView>, context_type: Option<Text>) -> bool {
    forall|i: int, j: int|
        0 <= i < deps.len() && 0 <= j < deps.len() ==> compatible(
            effective(#[trigger] deps[i], context_type),
            effective(#[trigger] deps[j], context_type),
        )
}

/// What `dependency_conflict_from` finds is the first function at or behind
/// `start` that does not go with `expected`; it finds nothing only where
/// all of them do.
pub proof fn lemma_dependency_conflict_from(deps: Seq<FnDepsView>, expected: FnDepsView, start: int)
    requires
        0 <= start,
    ensures
        match dependency_conflict_from(deps, expected, start) {
            Some(k) => start <= k < deps.len() && !compatible(expected, deps[k]) && forall|j: int|
                start <= j < k ==> compatible(expected, #[trigger] deps[j]),
            None => forall|j: int| start <= j < deps.len() ==> compatible(expected, #[trigger] deps[j]),
        },
    decreases deps.len() - start,
{
    if start < deps.len() && compatible(expected, deps[start]) {
        lemma_dependency_conflict_from(deps, expected, start + 1);
    }
}

/// A group has a conflict exactly where its dependencies do not go together.
pub proof fn lemma_conflict_iff_inconsistent(deps: Seq<FnDepsView>, context_type: Option<Text>)
    ensures
        dependency_conflict(deps, context_type) is None <==> consistent(deps, context_type),
{
    let expected = expected_deps(deps, context_type);
    let taken = effective_deps(deps, context_type);
    lemma_dependency_conflict_from(taken, expected, 0);
    if dependency_conflict(deps, context_type) is None {
        assert forall|i: int, j: int| 0 <= i < deps.len() && 0 <= j < deps.len() implies compatible(
            effective(#[trigger] deps[i], context_type),
            effective(#[trigger] deps[j], context_type),
        ) by {
            assert(compatible(expected, taken[i]));
            assert(compatible(expected, taken[j]));
        }
    } else {
        let k = dependency_conflict(deps, context_type)->Some_0;
        assert(!compatible(expected, taken[k]));
        assert(!compatible(effective(deps[0], context_type), effective(deps[k], context_type)));
    }
}

/// With a context type configured, a group of one function has no
/// conflict, whatever the function depends on.
pub proof fn lemma_single_function_fits(deps: Seq<FnDepsView>, context_type: Option<Text>)
    requires
        deps.len() <= 1,
    ensures
        dependency_conflict(deps, context_type) is None,
{
    let expected = expected_deps(deps, context_type);
    let taken = effective_deps(deps, context_type);
    lemma_dependency_conflict_from(taken, expected, 0);
    if deps.len() == 1 {
        assert(compatible(taken[0], taken[0]));
    }
}

/// The first function at or behind `start` with a generic dependency.
pub open spec fn first_generic_from(deps: Seq<FnDepsView>, start: int) -> Option<int>
    decreases deps.len() - start,
{
    if start < 0 || start >= deps.len() {
        None
    } else if deps[start] is Generic {
        Some(start)
    } else {
        first_generic_from(deps, start + 1)
    }
}

/// What the generic functions of a group require of the dependency
/// parameter: the bounds of each, in declaration order, each bound once.
pub open spec fn required_bounds(deps: Seq<FnDepsView>) -> Seq<Text>
    decreases deps.len(),
{
    if deps.len() == 0 {
        Seq::empty()
    } else {
        match deps.last() {
            FnDepsView::Generic { required_bounds: bounds, .. } => union_texts(
                required_bounds(deps.drop_last()),
                bounds,
            ),
            _ => required_bounds(deps.drop_last()),
        }
    }
}

/// The name of the dependency parameter of a group in which no function
/// names one.
pub open spec fn default_dep_param() -> Text {
    "EntraitT"@
}

/// What a generated interface is implemented for.
#[derive(Debug, PartialEq, Eq)]
pub enum TraitDependencyMode {
    /// For a type parameter that stands for whatever supplies the
    /// dependencies. `dep_param` is the name that the first generic function
    /// gave it and `origin` that function's place; `bounds` is what all
    /// functions of the group require of it.
    Generic { dep_param: String, origin: usize, bounds: Vec<String> },
    /// For one fixed context type.
    Concrete(String),
}

/// What a generated interface is implemented for, as a value.
pub enum TraitDependencyModeView {
    Generic { dep_param: Text, origin: int, bounds: Seq<Text> },
    Concrete(Text),
}

impl View for TraitDependencyMode {
    type V = TraitDependencyModeView;

    open spec fn view(&self) -> TraitDependencyModeView {
        match self {
            TraitDependencyMode::Generic { dep_param, origin, bounds } =>
                TraitDependencyModeView::Generic {
                    dep_param: dep_param@,
                    origin: *origin as int,
                    bounds: texts(bounds@),
                },
            TraitDependencyMode::Concrete(ty) => TraitDependencyModeView::Concrete(ty@),
        }
    }
}

/// What the interface of a group with these dependencies is implemented
/// for: the configured context type where one was named; else the fixed
/// type that its functions depend on; else a dependency parameter.
pub open spec fn group_mode(deps: Seq<FnDepsView>, context_type: Option<Text>) -> TraitDependencyModeView {
    match context_type {
        Some(context) => TraitDependencyModeView::Concrete(context),
        None => match expected_deps(deps, context_type) {
            FnDepsView::Concrete(ty) => TraitDependencyModeView::Concrete(ty),
            _ => match first_generic_from(deps, 0) {
                Some(k) => TraitDependencyModeView::Generic {
                    dep_param: deps[k]->dep_param,
                    origin: k,
                    bounds: required_bounds(deps),
                },
                None => TraitDependencyModeView::Generic {
                    dep_param: default_dep_param(),
                    origin: 0,
                    bounds: required_bounds(deps),
                },
            },
        },
    }
}

/// What `detect_trait_dependency_mode` returns for a group.
pub open spec fn detected_mode(fns: Seq<InputFnView>, context_type: Option<Text>) -> Result<
    TraitDependencyModeView,
    ErrorView,
> {
    let deps = group_deps(fns, context_type);
    match dependency_conflict(deps, context_type) {
        Some(k) => Err(
            ErrorView::ConflictingDependencyMode {
                fn_index: k,
                function: fns[k].fn_sig.ident,
                found: effective(deps[k], context_type).class(),
                expected: expected_deps(deps, context_type).class(),
            },
        ),
        None => Ok(group_mode(deps, context_type)),
    }
}

/// Classifies each function of a group.
pub fn analyze_deps(fns: &Vec<&InputFn>, context_type: &Option<String>) -> (deps: Vec<FnDeps>)
    ensures
        deps_views(deps@) == group_deps(fn_views(fns@), opt_text(*context_type)),
{
    let mut deps: Vec<FnDeps> = Vec::new();
    let mut i: usize = 0;
    while i < fns.len()
        invariant
            i <= fns.len(),
            deps@.len() == i,
            forall|k: int|
                0 <= k < i ==> (#[trigger] deps@[k])@ == classify(
                    fns@[k]@.fn_sig,
                    opt_text(*context_type),
                ),
        decreases fns.len() - i,
    {
        let d = FnDeps::analyze(&fns[i].fn_sig, context_type);
        deps.push(d);
        i += 1;
    }
    proof {
        assert(deps_views(deps@) =~= group_deps(fn_views(fns@), opt_text(*context_type)));
    }
    deps
}

fn effective_of(deps: &FnDeps, context_type: &Option<String>) -> (e: FnDeps)
    ensures
        e@ == effective(deps@, opt_text(*context_type)),
{
    match (context_type, deps) {
        (Some(context), FnDeps::Generic { .. }) => FnDeps::Concrete(clone_text(context)),
        _ => deps.clone(),
    }
}

fn expected_of(deps: &Vec<FnDeps>, context_type: &Option<String>) -> (e: FnDeps)
    ensures
        e@ == expected_deps(deps_views(deps@), opt_text(*context_type)),
{
    if deps.len() > 0 {
        proof {
            assert(deps_views(deps@)[0] == deps@[0]@);
        }
        effective_of(&deps[0], context_type)
    } else {
        FnDeps::NoDeps
    }
}

fn find_conflict(deps: &Vec<FnDeps>, expected: &FnDeps, context_type: &Option<String>) -> (r: Option<
    (usize, FnDeps),
>)
    ensures
        match r {
            Some((k, found)) => k < deps.len() && dependency_conflict_from(
                effective_deps(deps_views(deps@), opt_text(*context_type)),
                expected@,
                0,
            ) == Some(k as int) && found@ == effective(deps@[k as int]@, opt_text(*context_type)),
            None => dependency_conflict_from(
                effective_deps(deps_views(deps@), opt_text(*context_type)),
                expected@,
                0,
            ) is None,
        },
{
    let ghost taken = effective_deps(deps_views(deps@), opt_text(*context_type));
    let mut i: usize = 0;
    while i < deps.len()
        invariant
            i <= deps.len(),
            taken == effective_deps(deps_views(deps@), opt_text(*context_type)),
            dependency_conflict_from(taken, expected@, 0) == dependency_conflict_from(
                taken,
                expected@,
                i as int,
            ),
        decreases deps.len() - i,
    {
        proof {
            assert(deps_views(deps@)[i as int] == deps@[i as int]@);
            assert(taken[i as int] == effective(deps@[i as int]@, opt_text(*context_type)));
        }
        let found = effective_of(&deps[i], context_type);
        if !expected.is_compatible(&found) {
            return Some((i, found));
        }
        i += 1;
    }
    None
}

fn find_first_generic(deps: &Vec<FnDeps>) -> (r: Option<(usize, String)>)
    ensures
        match r {
            Some((k, name)) => k < deps.len() && first_generic_from(deps_views(deps@), 0) == Some(
                k as int,
            ) && deps@[k as int]@ is Generic && name@ == deps@[k as int]@->dep_param,
            None => first_generic_from(deps_views(deps@), 0) is None,
        },
{
    let mut i: usize = 0;
    while i < deps.len()
        invariant
            i <= deps.len(),
            first_generic_from(deps_views(deps@), 0) == first_generic_from(
                deps_views(deps@),
                i as int,
            ),
        decreases deps.len() - i,
    {
        proof {
            assert(deps_views(deps@)[i as int] == deps@[i as int]@);
        }
        match &deps[i] {
            FnDeps::Generic { dep_param, .. } => {
                return Some((i, clone_text(dep_param)));
            },
            _ => {},
        }
        i += 1;
    }
    None
}

fn collect_required_bounds(deps: &Vec<FnDeps>) -> (bounds: Vec<String>)
    ensures
        texts(bounds@) == required_bounds(deps_views(deps@)),
{
    let mut bounds: Vec<String> = Vec::new();
    let mut i: usize = 0;
    proof {
        assert(texts(bounds@) =~= Seq::<Text>::empty());
    }
    while i < deps.len()
        invariant
            i <= deps.len(),
            texts(bounds@) == required_bounds(deps_views(deps@).take(i as int)),
        decreases deps.len() - i,
    {
        proof {
            assert(deps_views(deps@).take(i + 1).drop_last() =~= deps_views(deps@).take(i as int));
            assert(deps_views(deps@).take(i + 1).last() == deps@[i as int]@);
        }
        match &deps[i] {
            FnDeps::Generic { required_bounds: more, .. } => {
                extend_new(&mut bounds, more);
            },
            _ => {},
        }
        i += 1;
    }
    proof {
        assert(deps_views(deps@).take(deps.len() as int) =~= deps_views(deps@));
    }
    bounds
}

/// Decides what the interface of a group is implemented for, or names the
/// first function whose dependency does not go with the group's.
pub fn detect_trait_dependency_mode(
    fns: &Vec<&InputFn>,
    deps: &Vec<FnDeps>,
    context_type: &Option<String>,
) -> (r: Result<TraitDependencyMode, GenerationError>)
    requires
        deps_views(deps@) == group_deps(fn_views(fns@), opt_text(*context_type)),
    ensures
        match r {
            Ok(mode) => detected_mode(fn_views(fns@), opt_text(*context_type)) == Ok::<
                TraitDependencyModeView,
                ErrorView,
            >(mode@),
            Err(e) => detected_mode(fn_views(fns@), opt_text(*context_type)) == Err::<
                TraitDependencyModeView,
                ErrorView,
            >(e@),
        },
{
    let expected = expected_of(deps, context_type);
    match find_conflict(deps, &expected, context_type) {
        Some((k, found)) => {
            proof {
                assert(deps_views(deps@)[k as int] == deps@[k as int]@);
                assert(fn_views(fns@)[k as int] == fns@[k as int]@);
            }
            return Err(
                GenerationError::ConflictingDependencyMode {
                    fn_index: k,
                    function: clone_text(&fns[k].fn_sig.ident),
                    found: found.class(),
                    expected: expected.class(),
                },
            );
        },
        None => {},
    }
    match context_type {
        Some(context) => {
            return Ok(TraitDependencyMode::Concrete(clone_text(context)));
        },
        None => {},
    }
    match expected {
        FnDeps::Concrete(ty) => Ok(TraitDependencyMode::Concrete(ty)),
        _ => {
            let bounds = collect_required_bounds(deps);
            match find_first_generic(deps) {
                Some((k, dep_param)) => {
                    proof {
                        assert(deps_views(deps@)[k as int] == deps@[k as int]@);
                    }
                    Ok(TraitDependencyMode::Generic { dep_param, origin: k, bounds })
                },
                None => Ok(
                    TraitDependencyMode::Generic {
                        dep_param: String::from_str("EntraitT"),
                        origin: 0,
                        bounds,
                    },
                ),
            }
        },
    }
}

/// The signatures of the functions of a group, in order.
pub open spec fn sigs_of(fns: Seq<InputFnView>) -> Seq<SignatureView> {
    Seq::new(fns.len(), |i: int| fns[i].fn_sig)
}

/// The generic parameters of the whole group, or the error for the first
/// parameter that is declared again with other bounds.
pub open spec fn unified_generics(fns: Seq<InputFnView>, deps: Seq<FnDepsView>) -> Result<
    Seq<GenericParamView>,
    ErrorView,
> {
    match merge_group(sigs_of(fns), deps, fns.len() as int) {
        Ok(params) => Ok(params),
        Err((f, p)) => Err(
            ErrorView::ConflictingGenericBounds {
                fn_index: f,
                function: fns[f].fn_sig.ident,
                parameter: fns[f].fn_sig.generics[p].name,
            },
        ),
    }
}

/// A conflict, once found, stays the result however many more functions are
/// taken in.
pub proof fn lemma_merge_group_err_stays(
    sigs: Seq<SignatureView>,
    deps: Seq<FnDepsView>,
    upto: int,
    later: int,
)
    requires
        upto <= later,
        merge_group(sigs, deps, upto) is Err,
    ensures
        merge_group(sigs, deps, later) == merge_group(
            sigs,
            deps,
            upto,
        ),
    decreases later - upto,
{
    if upto < later {
        lemma_merge_group_err_stays(sigs, deps, upto, later - 1);
    }
}

/// Merges the generic parameters of all functions of a group into one list.
pub fn unify_generics(fns: &Vec<&InputFn>, deps: &Vec<FnDeps>) -> (r: Result<
    TraitGenerics,
    GenerationError,
>)
    requires
        deps@.len() == fns@.len(),
    ensures
        match r {
            Ok(g) => unified_generics(fn_views(fns@), deps_views(deps@)) == Ok::<
                Seq<GenericParamView>,
                ErrorView,
            >(g@),
            Err(e) => unified_generics(fn_views(fns@), deps_views(deps@)) == Err::<
                Seq<GenericParamView>,
                ErrorView,
            >(e@),
        },
{
    let mut analyzer = GenericsAnalyzer::new();
    let mut i: usize = 0;
    let ghost sigs = sigs_of(fn_views(fns@));
    while i < fns.len()
        invariant
            i <= fns.len(),
            deps@.len() == fns@.len(),
            sigs == sigs_of(fn_views(fns@)),
            merge_group(sigs, deps_views(deps@), i as int) == Ok::<
                Seq<GenericParamView>,
                (int, int),
            >(analyzer@),
        decreases fns.len() - i,
    {
        proof {
            assert(fn_views(fns@)[i as int] == fns@[i as int]@);
            assert(sigs[i as int] == fns@[i as int]@.fn_sig);
            assert(deps_views(deps@)[i as int] == deps@[i as int]@);
        }
        match analyzer.analyze_fn(&fns[i].fn_sig, &deps[i]) {
            Ok(_) => {},
            Err(p) => {
                proof {
                    lemma_merge_group_err_stays(sigs, deps_views(deps@), i + 1, fns.len() as int);
                    assert(fns@[i as int]@.fn_sig.generics[p as int] == fns@[i as int].fn_sig.generics@[p as int]@);
                }
                return Err(
                    GenerationError::ConflictingGenericBounds {
                        fn_index: i,
                        function: clone_text(&fns[i].fn_sig.ident),
                        parameter: clone_text(&fns[i].fn_sig.generics[p].name),
                    },
                );
            },
        }
        i += 1;
    }
    Ok(analyzer.into_trait_generics())
}

} // verus!
