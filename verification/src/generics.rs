use crate::input::{GenericParam, GenericParamView, Signature, SignatureView, generic_views};
use crate::text::{
    Text, append_texts, clone_opt_text, clone_text, clone_texts, has_same_texts, opt_text,
    same_opt_text, same_texts, texts,
};
use vstd::prelude::*;

verus! {

/// The place of the first parameter named `name` at or behind `start`.
pub open spec fn find_generic_from(generics: Seq<GenericParamView>, name: Text, start: int) -> Option<
    int,
>
    decreases generics.len() - start,
{
    if start < 0 || start >= generics.len() {
        None
    } else if generics[start].name == name {
        Some(start)
    } else {
        find_generic_from(generics, name, start + 1)
    }
}

/// The place of the first parameter named `name`.
pub open spec fn find_generic(generics: Seq<GenericParamView>, name: Text) -> Option<int> {
    find_generic_from(generics, name, 0)
}

/// What `find_generic` finds is a place of the list, holds the name, and
/// no place before it does; it finds nothing only where no place holds it.
pub proof fn lemma_find_generic(generics: Seq<GenericParamView>, name: Text, start: int)
    requires
        0 <= start,
    ensures
        match find_generic_from(generics, name, start) {
            Some(k) => start <= k < generics.len() && generics[k].name == name && forall|j: int|
                start <= j < k ==> generics[j].name != name,
            None => forall|j: int| start <= j < generics.len() ==> generics[j].name != name,
        },
    decreases generics.len() - start,
{
    if start < generics.len() && generics[start].name != name {
        lemma_find_generic(generics, name, start + 1);
    }
}

/// Looks for the first parameter named `name`.
pub fn position_of_generic(generics: &Vec<GenericParam>, name: &String) -> (r: Option<usize>)
    ensures
        match r {
            Some(k) => find_generic(generic_views(generics@), name@) == Some(k as int) && k
                < generics.len(),
            None => find_generic(generic_views(generics@), name@) is None,
        },
{
    let mut i: usize = 0;
    while i < generics.len()
        invariant
            i <= generics.len(),
            find_generic(generic_views(generics@), name@) == find_generic_from(
                generic_views(generics@),
                name@,
                i as int,
            ),
        decreases generics.len() - i,
    {
        proof {
            assert(generic_views(generics@)[i as int] == generics@[i as int]@);
        }
        if generics[i].name == *name {
            return Some(i);
        }
        i += 1;
    }
    None
}

/// The three shapes that a function's dependency can have.
#[derive(Clone, Copy, Debug, PartialEq, Eq, Structural)]
pub enum DependencyClass {
    NoDeps,
    Generic,
    Concrete,
}

/// How a function gets at what it depends on.
#[derive(Debug, PartialEq, Eq)]
pub enum FnDeps {
    /// The function takes no context.
    NoDeps,
    /// The first parameter's type is a generic parameter of the function,
    /// which stands for whatever supplies the dependencies; the bounds
    /// declared for it are what it has to supply.
    Generic { dep_param: String, required_bounds: Vec<String> },
    /// The first parameter's type is one fixed type.
    Concrete(String),
}

/// How a function gets at what it depends on, as a value.
pub enum FnDepsView {
    NoDeps,
    Generic { dep_param: Text, required_bounds: Seq<Text> },
    Concrete(Text),
}

impl FnDepsView {
    /// The shape of the dependency.
    pub open spec fn class(self) -> DependencyClass {
        match self {
            FnDepsView::NoDeps => DependencyClass::NoDeps,
            FnDepsView::Generic { .. } => DependencyClass::Generic,
            FnDepsView::Concrete(_) => DependencyClass::Concrete,
        }
    }

    /// Whether a function with this dependency takes a context parameter.
    pub open spec fn takes_context(self) -> bool {
        !(self is NoDeps)
    }
}

impl View for FnDeps {
    type V = FnDepsView;

    open spec fn view(&self) -> FnDepsView {
        match self {
            FnDeps::NoDeps => FnDepsView::NoDeps,
            FnDeps::Generic { dep_param, required_bounds } => FnDepsView::Generic {
                dep_param: dep_param@,
                required_bounds: texts(required_bounds@),
            },
            FnDeps::Concrete(ty) => FnDepsView::Concrete(ty@),
        }
    }
}

impl Clone for FnDeps {
    fn clone(&self) -> (r: Self)
        ensures
            r@ == self@,
    {
        match self {
            FnDeps::NoDeps => FnDeps::NoDeps,
            FnDeps::Generic { dep_param, required_bounds } => FnDeps::Generic {
                dep_param: clone_text(dep_param),
                required_bounds: clone_texts(required_bounds),
            },
            FnDeps::Concrete(ty) => FnDeps::Concrete(clone_text(ty)),
        }
    }
}

/// The dependency of a function with signature `sig`, where `context_type`
/// is the configured context type, if one was named.
///
/// A function without parameters has none. Where the first parameter's type
/// is, or borrows, a generic parameter of the function, the dependency is
/// generic. Otherwise the type is a fixed one: with a context type
/// configured it is the context only if it is that type, and an ordinary
/// parameter if not; with none configured it is the context.
pub open spec fn classify(sig: SignatureView, context_type: Option<Text>) -> FnDepsView {
    if sig.inputs.len() == 0 {
        FnDepsView::NoDeps
    } else {
        let first = sig.inputs[0].ty;
        match find_generic(sig.generics, first) {
            Some(k) => FnDepsView::Generic {
                dep_param: first,
                required_bounds: sig.generics[k].bounds,
            },
            None => match context_type {
                Some(context) => if first == context {
                    FnDepsView::Concrete(context)
                } else {
                    FnDepsView::NoDeps
                },
                None => FnDepsView::Concrete(first),
            },
        }
    }
}

impl FnDeps {
    /// The shape of the dependency.
    pub fn class(&self) -> (c: DependencyClass)
        ensures
            c == self@.class(),
    {
        match self {
            FnDeps::NoDeps => DependencyClass::NoDeps,
            FnDeps::Generic { .. } => DependencyClass::Generic,
            FnDeps::Concrete(_) => DependencyClass::Concrete,
        }
    }

    /// Whether a function with this dependency takes a context parameter.
    pub fn takes_context(&self) -> (r: bool)
        ensures
            r == self@.takes_context(),
    {
        match self {
            FnDeps::NoDeps => false,
            _ => true,
        }
    }

    /// Classifies the dependency of a function by its first parameter.
    pub fn analyze(sig: &Signature, context_type: &Option<String>) -> (deps: FnDeps)
        ensures
            deps@ == classify(sig@, opt_text(*context_type)),
    {
        if sig.inputs.len() == 0 {
            return FnDeps::NoDeps;
        }
        let first = &sig.inputs[0].ty;
        proof {
            assert(sig@.inputs[0] == sig.inputs@[0]@);
        }
        match position_of_generic(&sig.generics, first) {
            Some(k) => {
                proof {
                    assert(sig@.generics[k as int] == sig.generics@[k as int]@);
                }
                FnDeps::Generic {
                    dep_param: clone_text(first),
                    required_bounds: clone_texts(&sig.generics[k].bounds),
                }
            },
            None => match context_type {
                Some(context) => {
                    if *first == *context {
                        FnDeps::Concrete(clone_text(context))
                    } else {
                        FnDeps::NoDeps
                    }
                },
                None => FnDeps::Concrete(clone_text(first)),
            },
        }
    }

    /// Whether two functions with these dependencies can share one interface.
    pub fn is_compatible(&self, other: &FnDeps) -> (r: bool)
        ensures
            r == compatible(self@, other@),
    {
        match self {
            FnDeps::Concrete(a) => match other {
                FnDeps::Concrete(b) => *a == *b,
                _ => false,
            },
            _ => match other {
                FnDeps::Concrete(_) => false,
                _ => true,
            },
        }
    }
}

/// Whether two dependencies can stand in one group: those without a context
/// and the generic ones combine; a fixed context type goes only with the
/// same fixed type.
pub open spec fn compatible(a: FnDepsView, b: FnDepsView) -> bool {
    match (a, b) {
        (FnDepsView::Concrete(x), FnDepsView::Concrete(y)) => x == y,
        (FnDepsView::Concrete(_), _) => false,
        (_, FnDepsView::Concrete(_)) => false,
        _ => true,
    }
}


/// Whether a generic parameter named `name` is the dependency parameter of a
/// function with dependency `deps`, which is kept out of the group's
/// parameters.
pub open spec fn is_dep_param(deps: FnDepsView, name: Text) -> bool {
    match deps {
        FnDepsView::Generic { dep_param, .. } => dep_param == name,
        _ => false,
    }
}

/// Whether two declarations of one name declare the same parameter: the
/// same bounds, whatever their order and number, and either both a
/// constant of the same type or neither a constant.
pub open spec fn same_declaration(a: GenericParamView, b: GenericParamView) -> bool {
    same_texts(a.bounds, b.bounds) && a.const_ty == b.const_ty
}

/// The group's parameters `acc` after one more declaration `p`: a new name
/// is added behind the others; a known name stays as it is where the bounds
/// are the same ones, and is a conflict (`None`) where they are not.
pub open spec fn merge_param(acc: Seq<GenericParamView>, p: GenericParamView) -> Option<
    Seq<GenericParamView>,
> {
    match find_generic(acc, p.name) {
        None => Some(acc.push(p)),
        Some(k) => if same_declaration(acc[k], p) {
            Some(acc)
        } else {
            None
        },
    }
}

/// The group's parameters `acc` after the first `upto` generic parameters of
/// one function, or the place of the first of them that is in conflict.
pub open spec fn merge_fn(
    acc: Seq<GenericParamView>,
    params: Seq<GenericParamView>,
    deps: FnDepsView,
    upto: int,
) -> Result<Seq<GenericParamView>, int>
    decreases upto,
{
    if upto <= 0 {
        Ok(acc)
    } else {
        match merge_fn(acc, params, deps, upto - 1) {
            Err(at) => Err(at),
            Ok(merged) => {
                let p = params[upto - 1];
                if is_dep_param(deps, p.name) {
                    Ok(merged)
                } else {
                    match merge_param(merged, p) {
                        Some(next) => Ok(next),
                        None => Err(upto - 1),
                    }
                }
            },
        }
    }
}

/// The parameters of a group after its first `upto` functions, or the first
/// function and its first parameter that are in conflict with what came
/// before.
pub open spec fn merge_group(
    sigs: Seq<SignatureView>,
    deps: Seq<FnDepsView>,
    upto: int,
) -> Result<Seq<GenericParamView>, (int, int)>
    decreases upto,
{
    if upto <= 0 {
        Ok(Seq::empty())
    } else {
        match merge_group(sigs, deps, upto - 1) {
            Err(at) => Err(at),
            Ok(merged) => match merge_fn(
                merged,
                sigs[upto - 1].generics,
                deps[upto - 1],
                sigs[upto - 1].generics.len() as int,
            ) {
                Ok(next) => Ok(next),
                Err(p) => Err((upto - 1, p)),
            },
        }
    }
}

/// A conflict, once found, stays the result however many more parameters
/// are taken in.
pub proof fn lemma_merge_fn_err_stays(
    acc: Seq<GenericParamView>,
    params: Seq<GenericParamView>,
    deps: FnDepsView,
    upto: int,
    later: int,
)
    requires
        upto <= later,
        merge_fn(acc, params, deps, upto) is Err,
    ensures
        merge_fn(acc, params, deps, later) == merge_fn(acc, params, deps, upto),
    decreases later - upto,
{
    if upto < later {
        lemma_merge_fn_err_stays(acc, params, deps, upto, later - 1);
    }
}

/// Whether no two parameters of the list have one name.
pub open spec fn distinct_names(params: Seq<GenericParamView>) -> bool {
    forall|i: int, j: int|
        0 <= i < j < params.len() ==> (#[trigger] params[i]).name != (#[trigger] params[j]).name
}

/// The names of a list of parameters, in order.
pub open spec fn names_of(params: Seq<GenericParamView>) -> Seq<Text> {
    Seq::new(params.len(), |i: int| params[i].name)
}

/// One more declaration leaves the names of the group's parameters
/// distinct.
pub proof fn lemma_merge_param_distinct(acc: Seq<GenericParamView>, p: GenericParamView)
    requires
        distinct_names(acc),
    ensures
        merge_param(acc, p) is Some ==> distinct_names(merge_param(acc, p)->Some_0),
{
    lemma_find_generic(acc, p.name, 0);
}

/// The parameters of one more function leave the names of the group's
/// parameters distinct.
pub proof fn lemma_merge_fn_distinct(
    acc: Seq<GenericParamView>,
    params: Seq<GenericParamView>,
    deps: FnDepsView,
    upto: int,
)
    requires
        distinct_names(acc),
    ensures
        merge_fn(acc, params, deps, upto) is Ok ==> distinct_names(
            merge_fn(acc, params, deps, upto)->Ok_0,
        ),
    decreases upto,
{
    if upto > 0 {
        lemma_merge_fn_distinct(acc, params, deps, upto - 1);
        match merge_fn(acc, params, deps, upto - 1) {
            Ok(merged) => {
                lemma_merge_param_distinct(merged, params[upto - 1]);
            },
            Err(_) => {},
        }
    }
}

/// After merging, no two parameters of a group have one name.
pub proof fn lemma_merge_group_distinct(sigs: Seq<SignatureView>, deps: Seq<FnDepsView>, upto: int)
    ensures
        merge_group(sigs, deps, upto) is Ok ==> distinct_names(merge_group(sigs, deps, upto)->Ok_0),
    decreases upto,
{
    if upto > 0 {
        lemma_merge_group_distinct(sigs, deps, upto - 1);
        match merge_group(sigs, deps, upto - 1) {
            Ok(merged) => {
                lemma_merge_fn_distinct(
                    merged,
                    sigs[upto - 1].generics,
                    deps[upto - 1],
                    sigs[upto - 1].generics.len() as int,
                );
            },
            Err(_) => {},
        }
    }
}

/// The generic parameters of a whole group: each name once, in the order in
/// which the names first occur.
#[derive(Debug, PartialEq, Eq)]
pub struct TraitGenerics {
    pub params: Vec<GenericParam>,
}

impl View for TraitGenerics {
    type V = Seq<GenericParamView>;

    open spec fn view(&self) -> Seq<GenericParamView> {
        generic_views(self.params@)
    }
}

/// Collects the generic parameters of the functions of a group, one function
/// after the other.
pub struct GenericsAnalyzer {
    params: Vec<GenericParam>,
}

impl View for GenericsAnalyzer {
    type V = Seq<GenericParamView>;

    closed spec fn view(&self) -> Seq<GenericParamView> {
        generic_views(self.params@)
    }
}

impl GenericsAnalyzer {
    /// An analyzer that has seen no function yet.
    pub fn new() -> (r: Self)
        ensures
            r@ == Seq::<GenericParamView>::empty(),
    {
        let r = GenericsAnalyzer { params: Vec::new() };
        proof {
            assert(r@ =~= Seq::<GenericParamView>::empty());
        }
        r
    }

    /// Takes in one declaration; `false` where it is in conflict with an earlier one.
    fn add_param(&mut self, p: &GenericParam) -> (ok: bool)
        ensures
            match merge_param(old(self)@, p@) {
                Some(next) => ok && final(self)@ == next,
                None => !ok && final(self)@ == old(self)@,
            },
    {
        match position_of_generic(&self.params, &p.name) {
            None => {
                let ghost before = self.params@;
                let item = p.clone();
                self.params.push(item);
                proof {
                    assert(generic_views(self.params@) =~= generic_views(before).push(p@));
                }
                true
            },
            Some(k) => {
                proof {
                    assert(generic_views(self.params@)[k as int] == self.params@[k as int]@);
                }
                has_same_texts(&self.params[k].bounds, &p.bounds) && same_opt_text(
                    &self.params[k].const_ty,
                    &p.const_ty,
                )
            },
        }
    }

    /// Takes in the generic parameters of one function. Where one of them is
    /// in conflict with an earlier declaration, its place is returned.
    pub fn analyze_fn(&mut self, sig: &Signature, deps: &FnDeps) -> (r: Result<(), usize>)
        ensures
            match merge_fn(old(self)@, sig@.generics, deps@, sig@.generics.len() as int) {
                Ok(next) => r is Ok && final(self)@ == next,
                Err(at) => r is Err && r->Err_0 as int == at && at < sig.generics.len(),
            },
    {
        let mut i: usize = 0;
        while i < sig.generics.len()
            invariant
                i <= sig.generics.len(),
                sig@.generics.len() == sig.generics.len(),
                merge_fn(old(self)@, sig@.generics, deps@, i as int) == Ok::<
                    Seq<GenericParamView>,
                    int,
                >(self@),
            decreases sig.generics.len() - i,
        {
            let p = &sig.generics[i];
            proof {
                assert(sig@.generics[i as int] == p@);
            }
            let skip = match deps {
                FnDeps::Generic { dep_param, .. } => *dep_param == p.name,
                _ => false,
            };
            if !skip {
                if !self.add_param(p) {
                    proof {
                        lemma_merge_fn_err_stays(
                            old(self)@,
                            sig@.generics,
                            deps@,
                            i + 1,
                            sig@.generics.len() as int,
                        );
                    }
                    return Err(i);
                }
            }
            i += 1;
        }
        Ok(())
    }

    /// The parameters collected from all functions that were taken in.
    pub fn into_trait_generics(self) -> (r: TraitGenerics)
        ensures
            r@ == self@,
    {
        TraitGenerics { params: self.params }
    }
}


impl TraitGenerics {
    /// The names of the parameters, which are the generic arguments that an
    /// implementation hands to the interface.
    pub fn arguments(&self) -> (r: Vec<String>)
        ensures
            texts(r@) == names_of(self@),
    {
        let mut r: Vec<String> = Vec::new();
        let mut i: usize = 0;
        while i < self.params.len()
            invariant
                i <= self.params.len(),
                r@.len() == i,
                forall|k: int| 0 <= k < i ==> (#[trigger] r@[k])@ == self.params@[k].name@,
            decreases self.params.len() - i,
        {
            r.push(clone_text(&self.params[i].name));
            i += 1;
        }
        proof {
            assert(texts(r@) =~= names_of(self@));
        }
        r
    }
}


/// The parameters after one bound of a where-clause: where it speaks of a
/// parameter, that parameter has the bounds in addition, behind its own;
/// where it speaks of anything else, it stands behind the parameters as an
/// entry of its own.
pub open spec fn attach_one(params: Seq<GenericParamView>, predicate: GenericParamView) -> Seq<
    GenericParamView,
> {
    match find_generic(params, predicate.name) {
        Some(k) => params.update(
            k,
            GenericParamView {
                name: params[k].name,
                bounds: params[k].bounds + predicate.bounds,
                const_ty: params[k].const_ty,
            },
        ),
        None => params.push(predicate),
    }
}

/// The parameters after the bounds of a where-clause, taken one after the
/// other.
pub open spec fn attached(params: Seq<GenericParamView>, predicates: Seq<GenericParamView>) -> Seq<
    GenericParamView,
>
    decreases predicates.len(),
{
    if predicates.len() == 0 {
        params
    } else {
        attach_one(attached(params, predicates.drop_last()), predicates.last())
    }
}

/// Puts the bounds of a where-clause to the generic parameters that they
/// speak of. Each predicate names what it bounds and gives the bounds.
pub fn attach_where_bounds(params: Vec<GenericParam>, predicates: &Vec<GenericParam>) -> (r: Vec<
    GenericParam,
>)
    ensures
        generic_views(r@) == attached(generic_views(params@), generic_views(predicates@)),
{
    let mut r = params;
    let mut i: usize = 0;
    proof {
        assert(generic_views(predicates@).take(0) =~= Seq::<GenericParamView>::empty());
    }
    while i < predicates.len()
        invariant
            i <= predicates.len(),
            generic_views(r@) == attached(
                generic_views(params@),
                generic_views(predicates@).take(i as int),
            ),
        decreases predicates.len() - i,
    {
        let predicate = &predicates[i];
        proof {
            assert(generic_views(predicates@).take(i + 1).drop_last() =~= generic_views(
                predicates@,
            ).take(i as int));
            assert(generic_views(predicates@).take(i + 1).last() == predicate@);
        }
        let ghost before = r@;
        match position_of_generic(&r, &predicate.name) {
            Some(k) => {
                proof {
                    assert(generic_views(before)[k as int] == before[k as int]@);
                }
                let mut bounds = clone_texts(&r[k].bounds);
                append_texts(&mut bounds, &predicate.bounds);
                let joined = GenericParam {
                    name: clone_text(&r[k].name),
                    bounds,
                    const_ty: clone_opt_text(&r[k].const_ty),
                };
                r.set(k, joined);
                proof {
                    assert(generic_views(r@) =~= generic_views(before).update(k as int, joined@));
                }
            },
            None => {
                let added = predicate.clone();
                r.push(added);
                proof {
                    assert(generic_views(r@) =~= generic_views(before).push(predicate@));
                }
            },
        }
        i += 1;
    }
    proof {
        assert(generic_views(predicates@).take(predicates.len() as int) =~= generic_views(
            predicates@,
        ));
    }
    r
}

/// Whether `list` begins with `head`.
pub open spec fn begins_with(list: Seq<GenericParamView>, head: Seq<GenericParamView>) -> bool {
    head.len() <= list.len() && forall|k: int| 0 <= k < head.len() ==> list[k] == head[k]
}

/// Whether `list` has the parameter `p`: an entry of its name that
/// declares the same.
pub open spec fn has_param(list: Seq<GenericParamView>, p: GenericParamView) -> bool {
    exists|k: int|
        0 <= k < list.len() && (#[trigger] list[k]).name == p.name && same_declaration(list[k], p)
}

/// A parameter that a list has is a parameter of every list that begins
/// with it.
pub proof fn lemma_has_param_stays(
    head: Seq<GenericParamView>,
    list: Seq<GenericParamView>,
    p: GenericParamView,
)
    requires
        begins_with(list, head),
        has_param(head, p),
    ensures
        has_param(list, p),
{
    let k = choose|k: int|
        0 <= k < head.len() && (#[trigger] head[k]).name == p.name && same_declaration(head[k], p);
    assert(list[k] == head[k]);
}

/// One more declaration leaves all that was there in front and unchanged,
/// and the declared parameter is among the group's afterwards.
pub proof fn lemma_merge_param_keeps(acc: Seq<GenericParamView>, p: GenericParamView)
    requires
        merge_param(acc, p) is Some,
    ensures
        begins_with(merge_param(acc, p)->Some_0, acc),
        has_param(merge_param(acc, p)->Some_0, p),
{
    let next = merge_param(acc, p)->Some_0;
    lemma_find_generic(acc, p.name, 0);
    match find_generic(acc, p.name) {
        None => {
            assert(next[acc.len() as int] == p);
            assert(same_texts(p.bounds, p.bounds)) by {
                assert forall|i: int| 0 <= i < p.bounds.len() implies p.bounds.contains(
                    #[trigger] p.bounds[i],
                ) by {}
            }
        },
        Some(k) => {
            assert(next[k].name == p.name);
        },
    }
}

/// What the first `upto` parameters of a function leave of the group's
/// parameters: all that was there, in front and unchanged, and each of
/// these parameters but the dependency parameter.
pub proof fn lemma_merge_fn_keeps(
    acc: Seq<GenericParamView>,
    params: Seq<GenericParamView>,
    deps: FnDepsView,
    upto: int,
)
    requires
        merge_fn(acc, params, deps, upto) is Ok,
        upto <= params.len(),
    ensures
        begins_with(merge_fn(acc, params, deps, upto)->Ok_0, acc),
        forall|j: int|
            0 <= j < upto && !is_dep_param(deps, params[j].name) ==> has_param(
                merge_fn(acc, params, deps, upto)->Ok_0,
                #[trigger] params[j],
            ),
    decreases upto,
{
    if upto > 0 {
        let before = merge_fn(acc, params, deps, upto - 1)->Ok_0;
        let after = merge_fn(acc, params, deps, upto)->Ok_0;
        lemma_merge_fn_keeps(acc, params, deps, upto - 1);
        let p = params[upto - 1];
        if !is_dep_param(deps, p.name) {
            lemma_merge_param_keeps(before, p);
        }
        assert(begins_with(after, before));
        assert forall|j: int|
            0 <= j < upto && !is_dep_param(deps, params[j].name) implies has_param(
            after,
            #[trigger] params[j],
        ) by {
            if j < upto - 1 {
                lemma_has_param_stays(before, after, params[j]);
            }
        }
    }
}

/// What the first `upto` functions of a group leave of their parameters:
/// each parameter of each of them but the dependency parameter is among
/// the group's, under its name and with its bounds.
pub proof fn lemma_merge_group_keeps(
    sigs: Seq<SignatureView>,
    deps: Seq<FnDepsView>,
    upto: int,
    earlier: int,
)
    requires
        merge_group(sigs, deps, upto) is Ok,
        0 <= earlier <= upto,
    ensures
        merge_group(sigs, deps, earlier) is Ok,
        begins_with(merge_group(sigs, deps, upto)->Ok_0, merge_group(sigs, deps, earlier)->Ok_0),
        forall|j: int|
            0 <= j < sigs[upto - 1].generics.len() && upto > 0 && !is_dep_param(
                deps[upto - 1],
                sigs[upto - 1].generics[j].name,
            ) ==> has_param(
                merge_group(sigs, deps, upto)->Ok_0,
                #[trigger] sigs[upto - 1].generics[j],
            ),
    decreases upto,
{
    if upto > 0 {
        let before = merge_group(sigs, deps, upto - 1)->Ok_0;
        let after = merge_group(sigs, deps, upto)->Ok_0;
        lemma_merge_fn_keeps(
            before,
            sigs[upto - 1].generics,
            deps[upto - 1],
            sigs[upto - 1].generics.len() as int,
        );
        if earlier < upto {
            lemma_merge_group_keeps(sigs, deps, upto - 1, earlier);
            let first = merge_group(sigs, deps, earlier)->Ok_0;
            assert(begins_with(after, first)) by {
                assert forall|k: int| 0 <= k < first.len() implies after[k] == first[k] by {
                    assert(before[k] == first[k]);
                }
            }
        }
    }
}

/// Two declarations that declare the same as a third declare the same.
pub proof fn lemma_same_declaration(a: GenericParamView, b: GenericParamView, c: GenericParamView)
    requires
        same_declaration(c, a),
        same_declaration(c, b),
    ensures
        same_declaration(a, b),
{
    assert forall|i: int| 0 <= i < a.bounds.len() implies b.bounds.contains(
        #[trigger] a.bounds[i],
    ) by {
        assert(c.bounds.contains(a.bounds[i]));
        let k = choose|k: int| 0 <= k < c.bounds.len() && c.bounds[k] == a.bounds[i];
        assert(b.bounds.contains(c.bounds[k]));
    }
    assert forall|i: int| 0 <= i < b.bounds.len() implies a.bounds.contains(
        #[trigger] b.bounds[i],
    ) by {
        assert(c.bounds.contains(b.bounds[i]));
        let k = choose|k: int| 0 <= k < c.bounds.len() && c.bounds[k] == b.bounds[i];
        assert(a.bounds.contains(c.bounds[k]));
    }
}

/// Two parameters of one name that a list with distinct names has declare
/// the same.
pub proof fn lemma_one_entry_for_a_name(
    list: Seq<GenericParamView>,
    a: GenericParamView,
    b: GenericParamView,
)
    requires
        distinct_names(list),
        has_param(list, a),
        has_param(list, b),
        a.name == b.name,
    ensures
        same_declaration(a, b),
{
    let i = choose|k: int|
        0 <= k < list.len() && (#[trigger] list[k]).name == a.name && same_declaration(list[k], a);
    let j = choose|k: int|
        0 <= k < list.len() && (#[trigger] list[k]).name == b.name && same_declaration(list[k], b);
    assert(i == j) by {
        if i < j {
            assert(list[i].name != list[j].name);
        }
        if j < i {
            assert(list[j].name != list[i].name);
        }
    }
    lemma_same_declaration(a, b, list[i]);
}

} // verus!
