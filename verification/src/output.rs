use crate::input::{
    Borrow, FnParam, FnParamView, GenericParam, GenericParamView, clone_params, generic_views,
    param_views,
};
use crate::opt::{Visibility, VisibilityView};
use crate::text::{Text, clone_opt_text, clone_text, opt_text, texts};
use vstd::prelude::*;

verus! {

/// A marker in front of a generated declaration, which an outside framework
/// understands.
#[derive(Clone, Copy, Debug, PartialEq, Eq, Structural)]
pub enum Marker {
    /// Mock generation by `unimock`.
    Unimock,
    /// The interface is implemented for one fixed type.
    EntraitForTrait,
    /// Mock generation by `mockall`.
    MockallAutomock,
    /// Asynchronous interface methods by `async_trait`.
    AsyncTrait,
}

/// The future type that stands for one asynchronous method: on the
/// interface its declaration, on the implementation its binding.
#[derive(Debug, PartialEq, Eq)]
pub struct AssociatedFuture {
    pub ident: String,
    /// What the future yields: the return type of the function.
    pub output: Option<String>,
}

/// A future type as a value.
pub struct AssociatedFutureView {
    pub ident: Text,
    pub output: Option<Text>,
}

impl View for AssociatedFuture {
    type V = AssociatedFutureView;

    open spec fn view(&self) -> AssociatedFutureView {
        AssociatedFutureView { ident: self.ident@, output: opt_text(self.output) }
    }
}

impl Clone for AssociatedFuture {
    fn clone(&self) -> (r: Self)
        ensures
            r@ == self@,
    {
        AssociatedFuture { ident: clone_text(&self.ident), output: clone_opt_text(&self.output) }
    }
}

/// The view of an optional future.
pub open spec fn opt_future(o: Option<AssociatedFuture>) -> Option<AssociatedFutureView> {
    match o {
        Some(f) => Some(f@),
        None => None,
    }
}

/// Copies an optional future type.
pub fn clone_opt_future(o: &Option<AssociatedFuture>) -> (r: Option<AssociatedFuture>)
    ensures
        opt_future(r) == opt_future(*o),
{
    match o {
        Some(f) => Some(f.clone()),
        None => None,
    }
}

/// What a method returns.
#[derive(Debug, PartialEq, Eq)]
pub enum MethodOutput {
    /// The return type of the function, as it was declared.
    Declared(Option<String>),
    /// The associated future type of that name.
    Future(String),
}

/// What a method returns, as a value.
pub enum MethodOutputView {
    Declared(Option<Text>),
    Future(Text),
}

impl View for MethodOutput {
    type V = MethodOutputView;

    open spec fn view(&self) -> MethodOutputView {
        match self {
            MethodOutput::Declared(ty) => MethodOutputView::Declared(opt_text(*ty)),
            MethodOutput::Future(ident) => MethodOutputView::Future(ident@),
        }
    }
}

impl Clone for MethodOutput {
    fn clone(&self) -> (r: Self)
        ensures
            r@ == self@,
    {
        match self {
            MethodOutput::Declared(ty) => MethodOutput::Declared(clone_opt_text(ty)),
            MethodOutput::Future(ident) => MethodOutput::Future(clone_text(ident)),
        }
    }
}

/// The signature of a method of the interface.
#[derive(Debug, PartialEq, Eq)]
pub struct MethodSig {
    pub ident: String,
    pub asyncness: bool,
    /// The receiver that took the place of the context parameter, by the
    /// way that parameter was taken.
    pub receiver: Option<Borrow>,
    /// The lifetime of the receiver's borrow, where one is written.
    pub receiver_lifetime: Option<String>,
    /// The parameters behind the receiver.
    pub inputs: Vec<FnParam>,
    pub output: MethodOutput,
}

/// The signature of a method as a value.
pub struct MethodSigView {
    pub ident: Text,
    pub asyncness: bool,
    pub receiver: Option<Borrow>,
    pub receiver_lifetime: Option<Text>,
    pub inputs: Seq<FnParamView>,
    pub output: MethodOutputView,
}

impl View for MethodSig {
    type V = MethodSigView;

    open spec fn view(&self) -> MethodSigView {
        MethodSigView {
            ident: self.ident@,
            asyncness: self.asyncness,
            receiver: self.receiver,
            receiver_lifetime: opt_text(self.receiver_lifetime),
            inputs: param_views(self.inputs@),
            output: self.output@,
        }
    }
}

impl Clone for MethodSig {
    fn clone(&self) -> (r: Self)
        ensures
            r@ == self@,
    {
        let inputs = clone_params(&self.inputs, 0);
        proof {
            assert(param_views(self.inputs@).skip(0) =~= param_views(self.inputs@));
        }
        MethodSig {
            ident: clone_text(&self.ident),
            asyncness: self.asyncness,
            receiver: self.receiver,
            receiver_lifetime: clone_opt_text(&self.receiver_lifetime),
            inputs,
            output: self.output.clone(),
        }
    }
}

/// One entry of the interface: the method, and the declaration of its
/// future type where it has one.
#[derive(Debug, PartialEq, Eq)]
pub struct TraitItem {
    pub associated_fut_decl: Option<AssociatedFuture>,
    pub sig: MethodSig,
}

/// One entry of the interface as a value.
pub struct TraitItemView {
    pub associated_fut_decl: Option<AssociatedFutureView>,
    pub sig: MethodSigView,
}

impl View for TraitItem {
    type V = TraitItemView;

    open spec fn view(&self) -> TraitItemView {
        TraitItemView {
            associated_fut_decl: opt_future(self.associated_fut_decl),
            sig: self.sig@,
        }
    }
}

/// The views of the entries of an interface, in order.
pub open spec fn trait_item_views(v: Seq<TraitItem>) -> Seq<TraitItemView> {
    v.map_values(|t: TraitItem| t@)
}

/// The generated interface.
#[derive(Debug, PartialEq, Eq)]
pub struct TraitDef {
    pub markers: Vec<Marker>,
    pub visibility: Visibility,
    pub ident: String,
    pub generics: Vec<GenericParam>,
    pub items: Vec<TraitItem>,
}

/// The generated interface as a value.
pub struct TraitDefView {
    pub markers: Seq<Marker>,
    pub visibility: VisibilityView,
    pub ident: Text,
    pub generics: Seq<GenericParamView>,
    pub items: Seq<TraitItemView>,
}

impl View for TraitDef {
    type V = TraitDefView;

    open spec fn view(&self) -> TraitDefView {
        TraitDefView {
            markers: self.markers@,
            visibility: self.visibility@,
            ident: self.ident@,
            generics: generic_views(self.generics@),
            items: trait_item_views(self.items@),
        }
    }
}

/// The body of a delegating method: one call of the function.
#[derive(Debug, PartialEq, Eq)]
pub struct Delegation {
    /// The function that is called.
    pub callee: String,
    /// Whether the receiver is handed on as the first argument.
    pub pass_self: bool,
    /// The names of the parameters that are handed on behind it, in order.
    pub arguments: Vec<String>,
    /// Whether the call is awaited.
    pub dot_await: bool,
}

/// A delegating call as a value.
pub struct DelegationView {
    pub callee: Text,
    pub pass_self: bool,
    pub arguments: Seq<Text>,
    pub dot_await: bool,
}

impl View for Delegation {
    type V = DelegationView;

    open spec fn view(&self) -> DelegationView {
        DelegationView {
            callee: self.callee@,
            pass_self: self.pass_self,
            arguments: texts(self.arguments@),
            dot_await: self.dot_await,
        }
    }
}

/// One entry of the implementation: the delegating method, and the binding
/// of its future type where it has one.
#[derive(Debug, PartialEq, Eq)]
pub struct ImplItem {
    pub associated_fut_impl: Option<AssociatedFuture>,
    pub sig: MethodSig,
    pub call: Delegation,
}

/// One entry of the implementation as a value.
pub struct ImplItemView {
    pub associated_fut_impl: Option<AssociatedFutureView>,
    pub sig: MethodSigView,
    pub call: DelegationView,
}

impl View for ImplItem {
    type V = ImplItemView;

    open spec fn view(&self) -> ImplItemView {
        ImplItemView {
            associated_fut_impl: opt_future(self.associated_fut_impl),
            sig: self.sig@,
            call: self.call@,
        }
    }
}

/// The views of the entries of an implementation, in order.
pub open spec fn impl_item_views(v: Seq<ImplItem>) -> Seq<ImplItemView> {
    v.map_values(|t: ImplItem| t@)
}

/// The generated implementation of the interface.
#[derive(Debug, PartialEq, Eq)]
pub struct ImplBlock {
    pub markers: Vec<Marker>,
    /// The generic parameters of the implementation, with their bounds.
    pub params: Vec<GenericParam>,
    pub trait_ident: String,
    /// The generic arguments handed to the interface.
    pub args: Vec<String>,
    /// The type that the interface is implemented for.
    pub self_ty: String,
    pub items: Vec<ImplItem>,
}

/// The generated implementation as a value.
pub struct ImplBlockView {
    pub markers: Seq<Marker>,
    pub params: Seq<GenericParamView>,
    pub trait_ident: Text,
    pub args: Seq<Text>,
    pub self_ty: Text,
    pub items: Seq<ImplItemView>,
}

impl View for ImplBlock {
    type V = ImplBlockView;

    open spec fn view(&self) -> ImplBlockView {
        ImplBlockView {
            markers: self.markers@,
            params: generic_views(self.params@),
            trait_ident: self.trait_ident@,
            args: texts(self.args@),
            self_ty: self.self_ty@,
            items: impl_item_views(self.items@),
        }
    }
}

/// The statement that makes the interface of a scope visible outside it.
#[derive(Debug, PartialEq, Eq)]
pub struct ReExport {
    pub visibility: Visibility,
    pub module: String,
    pub ident: String,
}

/// The statement for a scope as a value.
pub struct ReExportView {
    pub visibility: VisibilityView,
    pub module: Text,
    pub ident: Text,
}

impl View for ReExport {
    type V = ReExportView;

    open spec fn view(&self) -> ReExportView {
        ReExportView { visibility: self.visibility@, module: self.module@, ident: self.ident@ }
    }
}

/// All that one invocation generates.
#[derive(Debug, PartialEq, Eq)]
pub struct GeneratedArtifact {
    pub trait_def: TraitDef,
    pub impl_block: ImplBlock,
    /// Only for a scope.
    pub reexport: Option<ReExport>,
}

/// All that one invocation generates, as a value.
pub struct ArtifactView {
    pub trait_def: TraitDefView,
    pub impl_block: ImplBlockView,
    pub reexport: Option<ReExportView>,
}

impl View for GeneratedArtifact {
    type V = ArtifactView;

    open spec fn view(&self) -> ArtifactView {
        ArtifactView {
            trait_def: self.trait_def@,
            impl_block: self.impl_block@,
            reexport: match self.reexport {
                Some(r) => Some(r@),
                None => None,
            },
        }
    }
}

} // verus!
