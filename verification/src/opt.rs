use crate::text::{Text, clone_text, opt_text};
use vstd::prelude::*;

verus! {

/// How the asynchronous methods of a generated interface are represented.
#[derive(Clone, Copy, Debug, PartialEq, Eq, Structural, Hash)]
pub enum AsyncStrategy {
    /// Asynchronous methods keep their native form.
    NoHack,
    /// Each asynchronous method gets an associated future type.
    AssociatedFuture,
    /// Interface and implementation carry the marker of an outside framework
    /// for asynchronous interface methods.
    AsyncTrait,
}

impl AsyncStrategy {
    /// Whether the strategy asks for a representation other than the native one.
    pub open spec fn forces(self) -> bool {
        self != AsyncStrategy::NoHack
    }

    /// Whether the strategy asks for a representation other than the native one.
    pub fn is_forcing(self) -> (r: bool)
        ensures
            r == self.forces(),
    {
        self != AsyncStrategy::NoHack
    }
}

/// An access level, as it is written in front of a declaration.
#[derive(Debug, PartialEq, Eq)]
pub enum Visibility {
    /// Nothing written: private to the scope that holds the declaration.
    Inherited,
    /// `pub`
    Public,
    /// `pub(crate)`
    Crate,
    /// `pub(super)`: visible to the enclosing scope.
    Super,
    /// `pub(in path)`
    Restricted(String),
}

/// An access level as a value.
pub enum VisibilityView {
    Inherited,
    Public,
    Crate,
    Super,
    Restricted(Text),
}

impl View for Visibility {
    type V = VisibilityView;

    open spec fn view(&self) -> VisibilityView {
        match self {
            Visibility::Inherited => VisibilityView::Inherited,
            Visibility::Public => VisibilityView::Public,
            Visibility::Crate => VisibilityView::Crate,
            Visibility::Super => VisibilityView::Super,
            Visibility::Restricted(path) => VisibilityView::Restricted(path@),
        }
    }
}

impl Clone for Visibility {
    fn clone(&self) -> (r: Self)
        ensures
            r@ == self@,
    {
        match self {
            Visibility::Inherited => Visibility::Inherited,
            Visibility::Public => Visibility::Public,
            Visibility::Crate => Visibility::Crate,
            Visibility::Super => Visibility::Super,
            Visibility::Restricted(path) => Visibility::Restricted(clone_text(path)),
        }
    }
}

/// The switches of one invocation.
#[derive(Clone, Copy, Debug, PartialEq, Eq, Structural)]
pub struct Opts {
    /// The configured strategy for asynchronous methods.
    pub async_strategy: AsyncStrategy,
    /// Attach the marker of the mock-generation framework `unimock`.
    pub unimock: bool,
    /// Attach the marker of the mock-generation framework `mockall`.
    pub mockall: bool,
}

impl Opts {
    /// The configured strategy for asynchronous methods.
    pub fn async_strategy(&self) -> (s: AsyncStrategy)
        ensures
            s == self.async_strategy,
    {
        self.async_strategy
    }
}

/// The resolved configuration of one invocation.
#[derive(Debug, PartialEq, Eq)]
pub struct EntraitFnAttr {
    /// The access level asked for the generated interface.
    pub trait_visibility: Visibility,
    /// The identifier of the generated interface.
    pub trait_ident: String,
    /// The one context type that the interface is implemented for, if it was named.
    pub context_type: Option<String>,
    pub opts: Opts,
}

/// A configuration as a value.
pub struct AttrView {
    pub trait_visibility: VisibilityView,
    pub trait_ident: Text,
    pub context_type: Option<Text>,
    pub opts: Opts,
}

impl View for EntraitFnAttr {
    type V = AttrView;

    open spec fn view(&self) -> AttrView {
        AttrView {
            trait_visibility: self.trait_visibility@,
            trait_ident: self.trait_ident@,
            context_type: opt_text(self.context_type),
            opts: self.opts,
        }
    }
}

} // verus!
