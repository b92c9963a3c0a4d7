use crate::analyze_generics::{
    TraitDependencyMode, TraitDependencyModeView, analyze_deps, deps_views,
    detect_trait_dependency_mode, detected_mode, group_deps, unified_generics, unify_generics,
};
use crate::error::{ErrorView, GenerationError};
use crate::generics::{FnDeps, FnDepsView, TraitGenerics, names_of};
use crate::input::{
    Borrow, FnInputMode, FnParam, FnParamView, GenericParam, GenericParamView, InputFn,
    InputFnView, InputMod, ParamPattern, ParamPatternView, clone_generics, clone_params, fn_views,
    generic_views, param_views, pub_fns,
};
use crate::naming::{decimal, decimal_text, fresh_name, make_fresh};
use crate::opt::{AsyncStrategy, AttrView, EntraitFnAttr, Opts, Visibility, VisibilityView};
use crate::output::{
    ArtifactView, AssociatedFuture, AssociatedFutureView, Delegation, DelegationView,
    GeneratedArtifact, ImplBlock, ImplBlockView, ImplItem, ImplItemView, Marker, MethodOutput,
    MethodOutputView, MethodSig, MethodSigView, ReExport, ReExportView, TraitDef, TraitDefView,
    TraitItem, TraitItemView, clone_opt_future, impl_item_views, opt_future, trait_item_views,
};
use crate::signature::{
    check_patterns, first_malformed, forwarded_from, lemma_malformed_fn_from,
    lemma_malformed_param_from, pattern_error,
};
use crate::strategy::{
    representation, select_representation, select_strategy, selected_strategy, AsyncRepresentation,
};
use crate::text::{Text, clone_opt_text, clone_text, clone_texts, texts};
use vstd::prelude::*;
use vstd::string::*;

verus! {

/// Whether a function gets an associated future type under a strategy: the
/// strategy asks for one and the function is asynchronous.
pub open spec fn uses_associated_future(f: InputFnView, strategy: AsyncStrategy) -> bool {
    strategy == AsyncStrategy::AssociatedFuture && f.fn_sig.asyncness
}

impl InputFn {
    /// Whether the delegating call of this function is awaited, as long as
    /// no future type stands for it.
    pub fn opt_dot_await(&self) -> (r: bool)
        ensures
            r == self@.fn_sig.asyncness,
    {
        self.fn_sig.asyncness
    }

    /// Whether this function gets an associated future type under `opts`.
    pub fn use_associated_future(&self, opts: &Opts) -> (r: bool)
        ensures
            r == uses_associated_future(self@, opts.async_strategy),
    {
        match (opts.async_strategy(), self.fn_sig.asyncness) {
            (AsyncStrategy::AssociatedFuture, true) => true,
            _ => false,
        }
    }
}

/// The name of the future type of the function `name`.
pub open spec fn future_ident(name: Text) -> Text {
    "Fut__"@ + name
}

/// The future type of a function, where it gets one.
pub open spec fn associated_future(f: InputFnView, strategy: AsyncStrategy) -> Option<
    AssociatedFutureView,
> {
    if uses_associated_future(f, strategy) {
        Some(AssociatedFutureView { ident: future_ident(f.fn_sig.ident), output: f.fn_sig.output })
    } else {
        None
    }
}

/// The receiver of the method that stands for a function. Every method has
/// one: it takes over the way the context parameter is taken, and is a
/// shared borrow where the function takes no context.
pub open spec fn receiver_of(f: InputFnView, deps: FnDepsView) -> Option<Borrow> {
    if deps.takes_context() && f.fn_sig.inputs.len() > 0 {
        Some(f.fn_sig.inputs[0].borrow)
    } else {
        Some(Borrow::Shared)
    }
}

/// The lifetime of the receiver's borrow: that of the context parameter.
pub open spec fn receiver_lifetime_of(f: InputFnView, deps: FnDepsView) -> Option<Text> {
    if deps.takes_context() && f.fn_sig.inputs.len() > 0 {
        f.fn_sig.inputs[0].lifetime
    } else {
        None
    }
}

/// The signature of the method that stands for a function: the receiver in
/// place of the context parameter, the other parameters as they are, and
/// the return type of the function or its future type.
pub open spec fn method_sig(f: InputFnView, deps: FnDepsView, strategy: AsyncStrategy) -> MethodSigView {
    MethodSigView {
        ident: f.fn_sig.ident,
        asyncness: f.fn_sig.asyncness && !uses_associated_future(f, strategy),
        receiver: receiver_of(f, deps),
        receiver_lifetime: receiver_lifetime_of(f, deps),
        inputs: f.fn_sig.inputs.skip(forwarded_from(deps)),
        output: if uses_associated_future(f, strategy) {
            MethodOutputView::Future(future_ident(f.fn_sig.ident))
        } else {
            MethodOutputView::Declared(f.fn_sig.output)
        },
    }
}

/// The method of the interface that stands for one function, with the
/// fragments of its future type where it has one.
#[derive(Debug, PartialEq, Eq)]
pub struct EntraitSignature {
    pub sig: MethodSig,
    pub associated_fut_decl: Option<AssociatedFuture>,
    pub associated_fut_impl: Option<AssociatedFuture>,
}

/// The method that stands for one function, as a value.
pub struct EntraitSignatureView {
    pub sig: MethodSigView,
    pub associated_fut_decl: Option<AssociatedFutureView>,
    pub associated_fut_impl: Option<AssociatedFutureView>,
}

impl View for EntraitSignature {
    type V = EntraitSignatureView;

    open spec fn view(&self) -> EntraitSignatureView {
        EntraitSignatureView {
            sig: self.sig@,
            associated_fut_decl: opt_future(self.associated_fut_decl),
            associated_fut_impl: opt_future(self.associated_fut_impl),
        }
    }
}

/// A function of the group after analysis.
#[derive(Debug, PartialEq, Eq)]
pub struct TraitFn<'s> {
    pub source: &'s InputFn,
    pub deps: FnDeps,
    pub entrait_sig: EntraitSignature,
}

/// A function of the group after analysis, as a value.
pub struct TraitFnView {
    pub source: InputFnView,
    pub deps: FnDepsView,
    pub entrait_sig: EntraitSignatureView,
}

impl<'s> View for TraitFn<'s> {
    type V = TraitFnView;

    open spec fn view(&self) -> TraitFnView {
        TraitFnView { source: self.source@, deps: self.deps@, entrait_sig: self.entrait_sig@ }
    }
}

/// The analysis of one function with its dependency under a strategy.
pub open spec fn trait_fn(f: InputFnView, deps: FnDepsView, strategy: AsyncStrategy) -> TraitFnView {
    TraitFnView {
        source: f,
        deps,
        entrait_sig: EntraitSignatureView {
            sig: method_sig(f, deps, strategy),
            associated_fut_decl: associated_future(f, strategy),
            associated_fut_impl: associated_future(f, strategy),
        },
    }
}

impl<'s> TraitFn<'s> {
    /// Derives the method of the interface that stands for `source`.
    pub fn analyze(source: &'s InputFn, deps: FnDeps, opts: &Opts) -> (r: Self)
        requires
            forwarded_from(deps@) <= source@.fn_sig.inputs.len(),
        ensures
            r@ == trait_fn(source@, deps@, opts.async_strategy),
    {
        let use_future = source.use_associated_future(opts);
        let takes_context = deps.takes_context();
        let from: usize = if takes_context {
            1
        } else {
            0
        };
        let receiver = if takes_context && source.fn_sig.inputs.len() > 0 {
            proof {
                assert(source@.fn_sig.inputs[0] == source.fn_sig.inputs@[0]@);
            }
            Some(source.fn_sig.inputs[0].borrow)
        } else {
            Some(Borrow::Shared)
        };
        let receiver_lifetime = if takes_context && source.fn_sig.inputs.len() > 0 {
            clone_opt_text(&source.fn_sig.inputs[0].lifetime)
        } else {
            None
        };
        let inputs = clone_params(&source.fn_sig.inputs, from);
        let mut decl: Option<AssociatedFuture> = None;
        let mut bind: Option<AssociatedFuture> = None;
        let output = if use_future {
            let mut ident = String::from_str("Fut__");
            ident.append(source.fn_sig.ident.as_str());
            decl =
            Some(
                AssociatedFuture {
                    ident: clone_text(&ident),
                    output: clone_opt_text(&source.fn_sig.output),
                },
            );
            bind =
            Some(
                AssociatedFuture {
                    ident: clone_text(&ident),
                    output: clone_opt_text(&source.fn_sig.output),
                },
            );
            MethodOutput::Future(ident)
        } else {
            MethodOutput::Declared(clone_opt_text(&source.fn_sig.output))
        };
        TraitFn {
            source,
            deps,
            entrait_sig: EntraitSignature {
                sig: MethodSig {
                    ident: clone_text(&source.fn_sig.ident),
                    asyncness: source.fn_sig.asyncness && !use_future,
                    receiver,
                    receiver_lifetime,
                    inputs,
                    output,
                },
                associated_fut_decl: decl,
                associated_fut_impl: bind,
            },
        }
    }

    /// The signature of the method.
    pub fn sig(&self) -> (r: &MethodSig)
        ensures
            r == &self.entrait_sig.sig,
    {
        &self.entrait_sig.sig
    }
}

/// The name of a parameter where its pattern is one, and the text of the
/// pattern where it is not.
pub open spec fn pattern_text(p: ParamPatternView) -> Text {
    match p {
        ParamPatternView::Ident(name) => name,
        ParamPatternView::Destructured(text) => text,
    }
}

/// The names of a list of parameters, in order.
pub open spec fn argument_names(inputs: Seq<FnParamView>) -> Seq<Text> {
    Seq::new(inputs.len(), |i: int| pattern_text(inputs[i].pattern))
}

/// Whether every parameter of the list has a simple name.
pub open spec fn all_simple(inputs: Seq<FnParamView>) -> bool {
    forall|i: int| 0 <= i < inputs.len() ==> (#[trigger] inputs[i]).pattern is Ident
}

/// Whether the method has anything between its brackets, receiver or
/// parameter.
pub open spec fn has_inputs(sig: MethodSigView) -> bool {
    sig.receiver is Some || sig.inputs.len() > 0
}

/// The call that the delegating method of an analyzed function makes: the
/// function itself, with the receiver in front where the function takes a
/// context and the method has anything to hand on, then the parameters of
/// the method in their order; awaited where the function is asynchronous
/// and no future type stands for it.
pub open spec fn delegation(t: TraitFnView) -> DelegationView {
    DelegationView {
        callee: t.source.fn_sig.ident,
        pass_self: t.deps.takes_context() && has_inputs(t.entrait_sig.sig),
        arguments: argument_names(t.entrait_sig.sig.inputs),
        dot_await: t.source.fn_sig.asyncness && t.entrait_sig.associated_fut_decl is None,
    }
}

/// The entry of the implementation for an analyzed function.
pub open spec fn impl_item(t: TraitFnView) -> ImplItemView {
    ImplItemView {
        associated_fut_impl: t.entrait_sig.associated_fut_impl,
        sig: t.entrait_sig.sig,
        call: delegation(t),
    }
}

fn collect_argument_names(inputs: &Vec<FnParam>) -> (r: Vec<String>)
    requires
        all_simple(param_views(inputs@)),
    ensures
        texts(r@) == argument_names(param_views(inputs@)),
{
    let mut r: Vec<String> = Vec::new();
    let mut i: usize = 0;
    while i < inputs.len()
        invariant
            i <= inputs.len(),
            r@.len() == i,
            all_simple(param_views(inputs@)),
            forall|k: int|
                0 <= k < i ==> (#[trigger] r@[k])@ == pattern_text(param_views(inputs@)[k].pattern),
        decreases inputs.len() - i,
    {
        proof {
            assert(param_views(inputs@)[i as int] == inputs@[i as int]@);
            assert(param_views(inputs@)[i as int].pattern is Ident);
        }
        match &inputs[i].pattern {
            ParamPattern::Ident(name) => {
                r.push(clone_text(name));
            },
            ParamPattern::Destructured(text) => {
                r.push(clone_text(text));
            },
        }
        i += 1;
    }
    proof {
        assert(texts(r@) =~= argument_names(param_views(inputs@)));
    }
    r
}

/// Generates the method of the implementation that calls the function.
pub fn gen_delegating_fn_item(trait_fn: &TraitFn) -> (item: ImplItem)
    requires
        all_simple(trait_fn@.entrait_sig.sig.inputs),
    ensures
        item@ == impl_item(trait_fn@),
{
    let entrait_sig = &trait_fn.entrait_sig;
    let first = entrait_sig.sig.receiver.is_some() || entrait_sig.sig.inputs.len() > 0;
    let pass_self = match (&trait_fn.deps, first) {
        (FnDeps::NoDeps, _) => false,
        (_, false) => false,
        (_, true) => true,
    };
    let arguments = collect_argument_names(&entrait_sig.sig.inputs);
    let mut dot_await = trait_fn.source.opt_dot_await();
    if entrait_sig.associated_fut_decl.is_some() {
        dot_await = false;
    }
    ImplItem {
        associated_fut_impl: clone_opt_future(&entrait_sig.associated_fut_impl),
        sig: entrait_sig.sig.clone(),
        call: Delegation {
            callee: clone_text(&trait_fn.source.fn_sig.ident),
            pass_self,
            arguments,
            dot_await,
        },
    }
}


/// The access level of the generated interface. For one function it is the
/// configured one. For a scope, an interface without a configured access
/// level is made visible to the enclosing scope: it is written inside the
/// scope but belongs to the place where the scope itself is declared.
pub open spec fn resolved_visibility(declared: VisibilityView, mode: FnInputMode) -> VisibilityView {
    match mode {
        FnInputMode::Module => match declared {
            VisibilityView::Inherited => VisibilityView::Super,
            _ => declared,
        },
        FnInputMode::SingleFn => declared,
    }
}

/// The access level of a generated interface, to be resolved for the way
/// the invocation was attached.
pub struct TraitVisibility<'a> {
    pub attr: &'a EntraitFnAttr,
    pub mode: &'a FnInputMode,
}

impl<'a> TraitVisibility<'a> {
    /// The access level that the interface gets.
    pub fn resolve(&self) -> (v: Visibility)
        ensures
            v@ == resolved_visibility(self.attr@.trait_visibility, *self.mode),
    {
        match self.mode {
            FnInputMode::Module => match &self.attr.trait_visibility {
                Visibility::Inherited => Visibility::Super,
                _ => self.attr.trait_visibility.clone(),
            },
            FnInputMode::SingleFn => self.attr.trait_visibility.clone(),
        }
    }
}

/// Zero or one marker.
pub open spec fn marker_if(present: bool, marker: Marker) -> Seq<Marker> {
    if present {
        seq![marker]
    } else {
        Seq::empty()
    }
}

/// Whether the marker for asynchronous interface methods is attached: the
/// representation decided for the group is the marker, which takes the
/// strategy that asks for it and a method that is asynchronous.
pub open spec fn wants_async_trait(opts: Opts, any_async: bool) -> bool {
    representation(opts.async_strategy, any_async) == AsyncRepresentation::CompatibilityAttribute
}

/// The markers in front of the interface, in their order.
pub open spec fn trait_markers(opts: Opts, mode: TraitDependencyModeView, any_async: bool) -> Seq<
    Marker,
> {
    marker_if(opts.unimock, Marker::Unimock) + marker_if(
        mode is Concrete,
        Marker::EntraitForTrait,
    ) + marker_if(opts.mockall, Marker::MockallAutomock) + marker_if(
        wants_async_trait(opts, any_async),
        Marker::AsyncTrait,
    )
}

/// The markers in front of the implementation.
pub open spec fn impl_markers(opts: Opts, any_async: bool) -> Seq<Marker> {
    marker_if(wants_async_trait(opts, any_async), Marker::AsyncTrait)
}

/// Whether a method of the list is asynchronous, by its own signature.
pub open spec fn any_async_method(fns: Seq<TraitFnView>) -> bool {
    exists|i: int| 0 <= i < fns.len() && (#[trigger] fns[i]).entrait_sig.sig.asyncness
}

/// The views of a list of analyzed functions, in order.
pub open spec fn trait_fn_views(v: Seq<TraitFn>) -> Seq<TraitFnView> {
    v.map_values(|t: TraitFn| t@)
}

fn any_async_fn(trait_fns: &Vec<TraitFn>) -> (r: bool)
    ensures
        r == any_async_method(trait_fn_views(trait_fns@)),
{
    let mut i: usize = 0;
    while i < trait_fns.len()
        invariant
            i <= trait_fns.len(),
            forall|k: int|
                0 <= k < i ==> !(#[trigger] trait_fn_views(
                    trait_fns@,
                )[k]).entrait_sig.sig.asyncness,
        decreases trait_fns.len() - i,
    {
        if trait_fns[i].sig().asyncness {
            proof {
                assert(trait_fn_views(trait_fns@)[i as int].entrait_sig.sig.asyncness);
            }
            return true;
        }
        i += 1;
    }
    false
}

/// The marker for asynchronous interface methods, where it is attached.
pub fn opt_async_trait_attribute(opts: &Opts, trait_fns: &Vec<TraitFn>) -> (r: Option<Marker>)
    ensures
        r == (if wants_async_trait(*opts, any_async_method(trait_fn_views(trait_fns@))) {
            Some(Marker::AsyncTrait)
        } else {
            None
        }),
{
    match select_representation(opts.async_strategy(), any_async_fn(trait_fns)) {
        AsyncRepresentation::CompatibilityAttribute => Some(Marker::AsyncTrait),
        _ => None,
    }
}

/// The entry of the interface for an analyzed function.
pub open spec fn trait_item(t: TraitFnView) -> TraitItemView {
    TraitItemView {
        associated_fut_decl: t.entrait_sig.associated_fut_decl,
        sig: t.entrait_sig.sig,
    }
}

/// The interface of a group: markers, access level, name, the group's
/// generic parameters, and one entry for each function in declaration order.
pub open spec fn trait_def_of(
    attr: AttrView,
    opts: Opts,
    generics: Seq<GenericParamView>,
    mode: TraitDependencyModeView,
    fns: Seq<TraitFnView>,
    input_mode: FnInputMode,
) -> TraitDefView {
    TraitDefView {
        markers: trait_markers(opts, mode, any_async_method(fns)),
        visibility: resolved_visibility(attr.trait_visibility, input_mode),
        ident: attr.trait_ident,
        generics,
        items: Seq::new(fns.len(), |i: int| trait_item(fns[i])),
    }
}

/// Generates the interface.
pub fn gen_trait_def(
    attr: &EntraitFnAttr,
    opts: &Opts,
    trait_generics: &TraitGenerics,
    trait_dependency_mode: &TraitDependencyMode,
    trait_fns: &Vec<TraitFn>,
    mode: &FnInputMode,
) -> (def: TraitDef)
    ensures
        def@ == trait_def_of(
            attr@,
            *opts,
            trait_generics@,
            trait_dependency_mode@,
            trait_fn_views(trait_fns@),
            *mode,
        ),
{
    let mut markers: Vec<Marker> = Vec::new();
    if opts.unimock {
        markers.push(Marker::Unimock);
    }
    match trait_dependency_mode {
        TraitDependencyMode::Concrete(_) => {
            markers.push(Marker::EntraitForTrait);
        },
        _ => {},
    }
    if opts.mockall {
        markers.push(Marker::MockallAutomock);
    }
    match opt_async_trait_attribute(opts, trait_fns) {
        Some(marker) => {
            markers.push(marker);
        },
        None => {},
    }
    proof {
        assert(markers@ =~= trait_markers(
            *opts,
            trait_dependency_mode@,
            any_async_method(trait_fn_views(trait_fns@)),
        ));
    }
    let trait_visibility = TraitVisibility { attr, mode };
    let mut items: Vec<TraitItem> = Vec::new();
    let mut i: usize = 0;
    while i < trait_fns.len()
        invariant
            i <= trait_fns.len(),
            items@.len() == i,
            forall|k: int| 0 <= k < i ==> (#[trigger] items@[k])@ == trait_item(trait_fns@[k]@),
        decreases trait_fns.len() - i,
    {
        let trait_fn = &trait_fns[i];
        items.push(
            TraitItem {
                associated_fut_decl: clone_opt_future(&trait_fn.entrait_sig.associated_fut_decl),
                sig: trait_fn.sig().clone(),
            },
        );
        i += 1;
    }
    proof {
        assert(trait_item_views(items@) =~= Seq::new(
            trait_fns@.len(),
            |i: int| trait_item(trait_fn_views(trait_fns@)[i]),
        ));
    }
    TraitDef {
        markers,
        visibility: trait_visibility.resolve(),
        ident: clone_text(&attr.trait_ident),
        generics: clone_generics(&trait_generics.params),
        items,
    }
}


/// The type that the interface is implemented for: the fixed context type,
/// or the dependency parameter under a name that none of the group's
/// generic parameters has. Where the name that the first generic function
/// gave it is taken, the decimal place of that function is put behind it,
/// as often as it takes.
pub open spec fn self_ty_of(
    mode: TraitDependencyModeView,
    generics: Seq<GenericParamView>,
) -> Text {
    match mode {
        TraitDependencyModeView::Generic { dep_param, origin, .. } => fresh_name(
            dep_param,
            decimal(origin as nat),
            names_of(generics),
        ),
        TraitDependencyModeView::Concrete(ty) => ty,
    }
}

/// The generic parameters of the implementation: the dependency parameter
/// with all that the group requires of it, where there is one, and then the
/// group's generic parameters.
pub open spec fn impl_params_of(
    mode: TraitDependencyModeView,
    generics: Seq<GenericParamView>,
) -> Seq<GenericParamView> {
    match mode {
        TraitDependencyModeView::Generic { bounds, .. } => seq![
            GenericParamView { name: self_ty_of(mode, generics), bounds, const_ty: None },
        ] + generics,
        TraitDependencyModeView::Concrete(_) => generics,
    }
}

/// The type that an interface is implemented for.
pub struct SelfTy<'g>(pub &'g TraitDependencyMode, pub &'g TraitGenerics);

impl<'g> SelfTy<'g> {
    /// The type as it is written.
    pub fn resolve(&self) -> (ty: String)
        ensures
            ty@ == self_ty_of(self.0@, self.1@),
    {
        match self.0 {
            TraitDependencyMode::Generic { dep_param, origin, .. } => {
                let suffix = decimal_text(*origin);
                let taken = self.1.arguments();
                make_fresh(dep_param, &suffix, &taken)
            },
            TraitDependencyMode::Concrete(ty) => clone_text(ty),
        }
    }
}

/// The implementation of the interface of a group, with one delegating
/// method for each function in declaration order.
pub open spec fn impl_block_of(
    attr: AttrView,
    opts: Opts,
    generics: Seq<GenericParamView>,
    mode: TraitDependencyModeView,
    fns: Seq<TraitFnView>,
) -> ImplBlockView {
    ImplBlockView {
        markers: impl_markers(opts, any_async_method(fns)),
        params: impl_params_of(mode, generics),
        trait_ident: attr.trait_ident,
        args: names_of(generics),
        self_ty: self_ty_of(mode, generics),
        items: Seq::new(fns.len(), |i: int| impl_item(fns[i])),
    }
}

/// Whether every method of the list forwards parameters with simple names only.
pub open spec fn all_forwardable(fns: Seq<TraitFnView>) -> bool {
    forall|i: int| 0 <= i < fns.len() ==> all_simple((#[trigger] fns[i]).entrait_sig.sig.inputs)
}

/// Generates the implementation, which looks like this:
///
/// ```text
/// impl<T: Deps> Trait for T {
///     fn the_func(&self, args...) {
///         the_func(self, args)
///     }
/// }
/// ```
pub fn gen_impl_block(
    attr: &EntraitFnAttr,
    opts: &Opts,
    trait_generics: &TraitGenerics,
    trait_dependency_mode: &TraitDependencyMode,
    trait_fns: &Vec<TraitFn>,
) -> (block: ImplBlock)
    requires
        all_forwardable(trait_fn_views(trait_fns@)),
    ensures
        block@ == impl_block_of(
            attr@,
            *opts,
            trait_generics@,
            trait_dependency_mode@,
            trait_fn_views(trait_fns@),
        ),
{
    let mut markers: Vec<Marker> = Vec::new();
    match opt_async_trait_attribute(opts, trait_fns) {
        Some(marker) => {
            markers.push(marker);
        },
        None => {},
    }
    proof {
        assert(markers@ =~= impl_markers(*opts, any_async_method(trait_fn_views(trait_fns@))));
    }
    let self_ty = SelfTy(trait_dependency_mode, trait_generics).resolve();
    let mut params: Vec<GenericParam> = Vec::new();
    match trait_dependency_mode {
        TraitDependencyMode::Generic { bounds, .. } => {
            params.push(
                GenericParam {
                    name: clone_text(&self_ty),
                    bounds: clone_texts(bounds),
                    const_ty: None,
                },
            );
        },
        TraitDependencyMode::Concrete(_) => {},
    }
    let ghost head = generic_views(params@);
    let mut k: usize = 0;
    while k < trait_generics.params.len()
        invariant
            k <= trait_generics.params.len(),
            generic_views(params@) == head + trait_generics@.take(k as int),
        decreases trait_generics.params.len() - k,
    {
        let ghost before = params@;
        let item = trait_generics.params[k].clone();
        params.push(item);
        proof {
            assert(generic_views(params@) =~= generic_views(
                before,
            ).push(item@));
            assert(trait_generics@.take(k + 1) =~= trait_generics@.take(k as int).push(item@));
            assert(generic_views(params@) =~= head + trait_generics@.take(k + 1));
        }
        k += 1;
    }
    proof {
        assert(trait_generics@.take(trait_generics.params.len() as int) =~= trait_generics@);
        assert(generic_views(params@) =~= impl_params_of(
            trait_dependency_mode@,
            trait_generics@,
        ));
    }
    let mut items: Vec<ImplItem> = Vec::new();
    let mut i: usize = 0;
    while i < trait_fns.len()
        invariant
            i <= trait_fns.len(),
            items@.len() == i,
            all_forwardable(trait_fn_views(trait_fns@)),
            forall|k: int| 0 <= k < i ==> (#[trigger] items@[k])@ == impl_item(trait_fns@[k]@),
        decreases trait_fns.len() - i,
    {
        proof {
            assert(trait_fn_views(trait_fns@)[i as int] == trait_fns@[i as int]@);
        }
        let fn_item = gen_delegating_fn_item(&trait_fns[i]);
        items.push(fn_item);
        i += 1;
    }
    proof {
        assert(impl_item_views(items@) =~= Seq::new(
            trait_fns@.len(),
            |i: int| impl_item(trait_fn_views(trait_fns@)[i]),
        ));
    }
    ImplBlock {
        markers,
        params,
        trait_ident: clone_text(&attr.trait_ident),
        args: trait_generics.arguments(),
        self_ty,
        items,
    }
}


/// The options of a group once its one strategy is settled.
pub open spec fn with_strategy(opts: Opts, strategy: AsyncStrategy) -> Opts {
    Opts { async_strategy: strategy, unimock: opts.unimock, mockall: opts.mockall }
}

/// The analysis of each function of a group, in declaration order.
pub open spec fn analyzed(
    fns: Seq<InputFnView>,
    deps: Seq<FnDepsView>,
    strategy: AsyncStrategy,
) -> Seq<TraitFnView> {
    Seq::new(fns.len(), |i: int| trait_fn(fns[i], deps[i], strategy))
}

/// What is generated for a group of functions `fns`, given in declaration
/// order, under the configuration `attr`. `module` names the scope, where
/// the group is one.
///
/// Nothing is generated unless the whole group is in order. The checks run
/// in this order, and the first that fails gives the error: the
/// dependencies of the functions go together; every forwarded parameter has
/// a simple name; no generic parameter is declared twice with other bounds;
/// the asynchronous functions ask for one strategy.
pub open spec fn generate(
    input_mode: FnInputMode,
    module: Text,
    attr: AttrView,
    fns: Seq<InputFnView>,
) -> Result<ArtifactView, ErrorView> {
    let deps = group_deps(fns, attr.context_type);
    match detected_mode(fns, attr.context_type) {
        Err(e) => Err(e),
        Ok(mode) => match pattern_error(fns, deps) {
            Some(e) => Err(e),
            None => match unified_generics(fns, deps) {
                Err(e) => Err(e),
                Ok(generics) => match selected_strategy(
                    fns,
                    attr.opts.async_strategy,
                ) {
                    Err(e) => Err(e),
                    Ok(strategy) => {
                        let opts = with_strategy(attr.opts, strategy);
                        let trait_fns = analyzed(fns, deps, strategy);
                        Ok(
                            ArtifactView {
                                trait_def: trait_def_of(
                                    attr,
                                    opts,
                                    generics,
                                    mode,
                                    trait_fns,
                                    input_mode,
                                ),
                                impl_block: impl_block_of(attr, opts, generics, mode, trait_fns),
                                reexport: match input_mode {
                                    FnInputMode::Module => Some(
                                        ReExportView {
                                            visibility: resolved_visibility(
                                                attr.trait_visibility,
                                                input_mode,
                                            ),
                                            module,
                                            ident: attr.trait_ident,
                                        },
                                    ),
                                    FnInputMode::SingleFn => None,
                                },
                            },
                        )
                    },
                },
            },
        },
    }
}

/// Whether `r` is what `generate` gives.
pub open spec fn is_generated(
    r: Result<GeneratedArtifact, GenerationError>,
    expected: Result<ArtifactView, ErrorView>,
) -> bool {
    match r {
        Ok(artifact) => expected == Ok::<ArtifactView, ErrorView>(
            artifact@,
        ),
        Err(e) => expected == Err::<ArtifactView, ErrorView>(e@),
    }
}

/// Where no forwarded parameter of a group lacks a simple name, every
/// method of the group forwards simple names only.
pub proof fn lemma_checked_patterns_forwardable(
    fns: Seq<InputFnView>,
    deps: Seq<FnDepsView>,
    strategy: AsyncStrategy,
)
    requires
        deps.len() == fns.len(),
        forall|i: int|
            0 <= i < fns.len() ==> forwarded_from(#[trigger] deps[i]) <= fns[i].fn_sig.inputs.len(),
        pattern_error(fns, deps) is None,
    ensures
        all_forwardable(analyzed(fns, deps, strategy)),
{
    lemma_malformed_fn_from(fns, deps, 0);
    assert forall|i: int| 0 <= i < fns.len() implies all_simple(
        (#[trigger] analyzed(fns, deps, strategy)[i]).entrait_sig.sig.inputs,
    ) by {
        assert(first_malformed(fns[i], deps[i]) is None);
        let from = forwarded_from(deps[i]);
        let inputs = fns[i].fn_sig.inputs;
        lemma_malformed_param_from(inputs, from);
        let kept = analyzed(fns, deps, strategy)[i].entrait_sig.sig.inputs;
        assert(kept == inputs.skip(from));
        assert forall|j: int| 0 <= j < kept.len() implies (#[trigger] kept[j]).pattern is Ident by {
            assert(kept[j] == inputs[j + from]);
        }
    }
}

fn analyze_all<'s>(fns: &Vec<&'s InputFn>, deps: &Vec<FnDeps>, opts: &Opts) -> (r: Vec<TraitFn<'s>>)
    requires
        deps@.len() == fns@.len(),
        forall|i: int|
            0 <= i < fns@.len() ==> forwarded_from((#[trigger] deps@[i])@)
                <= fns@[i]@.fn_sig.inputs.len(),
    ensures
        trait_fn_views(r@) == analyzed(fn_views(fns@), deps_views(deps@), opts.async_strategy),
{
    let mut r: Vec<TraitFn<'s>> = Vec::new();
    let mut i: usize = 0;
    while i < fns.len()
        invariant
            i <= fns.len(),
            deps@.len() == fns@.len(),
            r@.len() == i,
            forall|k: int|
                0 <= k < fns@.len() ==> forwarded_from((#[trigger] deps@[k])@)
                    <= fns@[k]@.fn_sig.inputs.len(),
            forall|k: int|
                0 <= k < i ==> (#[trigger] r@[k])@ == trait_fn(
                    fns@[k]@,
                    deps@[k]@,
                    opts.async_strategy,
                ),
        decreases fns.len() - i,
    {
        r.push(TraitFn::analyze(fns[i], deps[i].clone(), opts));
        i += 1;
    }
    proof {
        assert(trait_fn_views(r@) =~= analyzed(
            fn_views(fns@),
            deps_views(deps@),
            opts.async_strategy,
        ));
    }
    r
}

/// Generates interface and implementation for a group of functions.
pub fn generate_group(
    input_mode: FnInputMode,
    module: &String,
    attr: &EntraitFnAttr,
    fns: &Vec<&InputFn>,
) -> (r: Result<GeneratedArtifact, GenerationError>)
    ensures
        is_generated(r, generate(input_mode, module@, attr@, fn_views(fns@))),
{
    let selected = select_strategy(attr.opts.async_strategy(), fns);
    let deps = analyze_deps(fns, &attr.context_type);
    let ghost fs = fn_views(fns@);
    let ghost ds = deps_views(deps@);
    proof {
        assert(ds.len() == fs.len());
        assert(deps@.len() == fns@.len());
    }
    let trait_dependency_mode = match detect_trait_dependency_mode(
        fns,
        &deps,
        &attr.context_type,
    ) {
        Ok(mode) => mode,
        Err(e) => {
            return Err(e);
        },
    };
    match check_patterns(fns, &deps) {
        Ok(_) => {},
        Err(e) => {
            return Err(e);
        },
    }
    let trait_generics = match unify_generics(fns, &deps) {
        Ok(generics) => generics,
        Err(e) => {
            return Err(e);
        },
    };
    let strategy = match selected {
        Ok(strategy) => strategy,
        Err(e) => {
            return Err(e);
        },
    };
    let opts = Opts { async_strategy: strategy, unimock: attr.opts.unimock, mockall: attr.opts.mockall };
    proof {
        assert forall|i: int| 0 <= i < fns@.len() implies forwarded_from((#[trigger] deps@[i])@)
            <= fns@[i]@.fn_sig.inputs.len() by {
            assert(ds[i] == deps@[i]@);
            assert(fs[i] == fns@[i]@);
        }
        assert forall|i: int| 0 <= i < fs.len() implies forwarded_from(#[trigger] ds[i])
            <= fs[i].fn_sig.inputs.len() by {
            assert(ds[i] == deps@[i]@);
            assert(fs[i] == fns@[i]@);
        }
        lemma_checked_patterns_forwardable(fs, ds, strategy);
    }
    let trait_fns = analyze_all(fns, &deps, &opts);
    let trait_def = gen_trait_def(
        attr,
        &opts,
        &trait_generics,
        &trait_dependency_mode,
        &trait_fns,
        &input_mode,
    );
    let impl_block = gen_impl_block(
        attr,
        &opts,
        &trait_generics,
        &trait_dependency_mode,
        &trait_fns,
    );
    let reexport = match input_mode {
        FnInputMode::Module => Some(
            ReExport {
                visibility: (TraitVisibility { attr, mode: &input_mode }).resolve(),
                module: clone_text(module),
                ident: clone_text(&attr.trait_ident),
            },
        ),
        FnInputMode::SingleFn => None,
    };
    Ok(GeneratedArtifact { trait_def, impl_block, reexport })
}

/// Generates interface and implementation for one function.
pub fn entrait_for_single_fn(attr: &EntraitFnAttr, input_fn: InputFn) -> (r: Result<
    GeneratedArtifact,
    GenerationError,
>)
    ensures
        is_generated(r, generate(FnInputMode::SingleFn, Seq::empty(), attr@, seq![input_fn@])),
{
    let mut fns: Vec<&InputFn> = Vec::new();
    fns.push(&input_fn);
    proof {
        assert(fn_views(fns@) =~= seq![input_fn@]);
    }
    let module = String::new();
    generate_group(FnInputMode::SingleFn, &module, attr, &fns)
}

/// Generates interface and implementation for the public functions of a
/// scope, and the statement that makes the interface visible outside it.
pub fn entrait_for_mod(attr: &EntraitFnAttr, input_mod: InputMod) -> (r: Result<
    GeneratedArtifact,
    GenerationError,
>)
    ensures
        is_generated(
            r,
            generate(
                FnInputMode::Module,
                input_mod.ident@,
                attr@,
                pub_fns(input_mod.items@),
            ),
        ),
{
    let fns = input_mod.pub_fns();
    generate_group(FnInputMode::Module, &input_mod.ident, attr, &fns)
}

} // verus!
