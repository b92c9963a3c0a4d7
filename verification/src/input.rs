use crate::opt::{AsyncStrategy, Visibility, VisibilityView};
use crate::text::{clone_opt_text, Text, clone_text, clone_texts, opt_text, texts};
use vstd::prelude::*;

verus! {

/// A generic parameter with the bounds declared for it, inline or in a
/// where-clause.
#[derive(Debug, PartialEq, Eq)]
pub struct GenericParam {
    pub name: String,
    pub bounds: Vec<String>,
    /// The type of a constant parameter; `None` for a type or a lifetime.
    pub const_ty: Option<String>,
}

/// A generic parameter as a value.
pub struct GenericParamView {
    pub name: Text,
    pub bounds: Seq<Text>,
    pub const_ty: Option<Text>,
}

impl View for GenericParam {
    type V = GenericParamView;

    open spec fn view(&self) -> GenericParamView {
        GenericParamView {
            name: self.name@,
            bounds: texts(self.bounds@),
            const_ty: opt_text(self.const_ty),
        }
    }
}

impl Clone for GenericParam {
    fn clone(&self) -> (r: Self)
        ensures
            r@ == self@,
    {
        GenericParam {
            name: clone_text(&self.name),
            bounds: clone_texts(&self.bounds),
            const_ty: clone_opt_text(&self.const_ty),
        }
    }
}

/// The views of a list of generic parameters, in order.
pub open spec fn generic_views(v: Seq<GenericParam>) -> Seq<GenericParamView> {
    v.map_values(|g: GenericParam| g@)
}

/// Copies a list of generic parameters.
pub fn clone_generics(v: &Vec<GenericParam>) -> (r: Vec<GenericParam>)
    ensures
        generic_views(r@) == generic_views(v@),
{
    let mut r: Vec<GenericParam> = Vec::new();
    let mut i: usize = 0;
    while i < v.len()
        invariant
            i <= v.len(),
            r@.len() == i,
            generic_views(r@) == generic_views(v@).take(i as int),
        decreases v.len() - i,
    {
        let ghost before = r@;
        let item = v[i].clone();
        r.push(item);
        proof {
            assert(generic_views(r@) =~= generic_views(before).push(item@));
            assert(generic_views(r@) =~= generic_views(v@).take(i + 1));
        }
        i += 1;
    }
    proof {
        assert(generic_views(v@).take(v.len() as int) =~= generic_views(v@));
    }
    r
}

/// How a parameter's type takes its value.
#[derive(Clone, Copy, Debug, PartialEq, Eq, Structural)]
pub enum Borrow {
    /// `T`
    Owned,
    /// `&T`
    Shared,
    /// `&mut T`
    Exclusive,
}

/// A parameter's pattern: a simple name, or anything else.
#[derive(Debug, PartialEq, Eq)]
pub enum ParamPattern {
    Ident(String),
    Destructured(String),
}

/// A parameter's pattern as a value.
pub enum ParamPatternView {
    Ident(Text),
    Destructured(Text),
}

impl View for ParamPattern {
    type V = ParamPatternView;

    open spec fn view(&self) -> ParamPatternView {
        match self {
            ParamPattern::Ident(name) => ParamPatternView::Ident(name@),
            ParamPattern::Destructured(pattern) => ParamPatternView::Destructured(pattern@),
        }
    }
}

impl Clone for ParamPattern {
    fn clone(&self) -> (r: Self)
        ensures
            r@ == self@,
    {
        match self {
            ParamPattern::Ident(name) => ParamPattern::Ident(clone_text(name)),
            ParamPattern::Destructured(pattern) => ParamPattern::Destructured(clone_text(pattern)),
        }
    }
}

/// One parameter of a function: its pattern, and its type as the way it is
/// taken, with the lifetime of the borrow, and the type behind that.
#[derive(Debug, PartialEq, Eq)]
pub struct FnParam {
    pub pattern: ParamPattern,
    pub borrow: Borrow,
    /// The lifetime of the borrow, where one is written.
    pub lifetime: Option<String>,
    pub ty: String,
}

/// A parameter as a value.
pub struct FnParamView {
    pub pattern: ParamPatternView,
    pub borrow: Borrow,
    pub lifetime: Option<Text>,
    pub ty: Text,
}

impl View for FnParam {
    type V = FnParamView;

    open spec fn view(&self) -> FnParamView {
        FnParamView {
            pattern: self.pattern@,
            borrow: self.borrow,
            lifetime: opt_text(self.lifetime),
            ty: self.ty@,
        }
    }
}

impl Clone for FnParam {
    fn clone(&self) -> (r: Self)
        ensures
            r@ == self@,
    {
        FnParam {
            pattern: self.pattern.clone(),
            borrow: self.borrow,
            lifetime: clone_opt_text(&self.lifetime),
            ty: clone_text(&self.ty),
        }
    }
}

/// The views of a list of parameters, in order.
pub open spec fn param_views(v: Seq<FnParam>) -> Seq<FnParamView> {
    v.map_values(|p: FnParam| p@)
}

/// The signature of a function as it was declared.
#[derive(Debug, PartialEq, Eq)]
pub struct Signature {
    pub ident: String,
    pub asyncness: bool,
    pub generics: Vec<GenericParam>,
    pub inputs: Vec<FnParam>,
    /// The return type; `None` where none is written.
    pub output: Option<String>,
}

/// A signature as a value.
pub struct SignatureView {
    pub ident: Text,
    pub asyncness: bool,
    pub generics: Seq<GenericParamView>,
    pub inputs: Seq<FnParamView>,
    pub output: Option<Text>,
}

impl View for Signature {
    type V = SignatureView;

    open spec fn view(&self) -> SignatureView {
        SignatureView {
            ident: self.ident@,
            asyncness: self.asyncness,
            generics: generic_views(self.generics@),
            inputs: param_views(self.inputs@),
            output: opt_text(self.output),
        }
    }
}

/// A function declaration, as the parser delivers it. The body is carried
/// and never read.
#[derive(Debug, PartialEq, Eq)]
pub struct InputFn {
    pub fn_vis: Visibility,
    pub fn_sig: Signature,
    pub fn_body: String,
    /// The strategy for asynchronous methods that this function asks for,
    /// where it asks for one of its own.
    pub async_strategy: Option<AsyncStrategy>,
}

/// A function declaration as a value.
pub struct InputFnView {
    pub fn_vis: VisibilityView,
    pub fn_sig: SignatureView,
    pub fn_body: Text,
    pub async_strategy: Option<AsyncStrategy>,
}

impl View for InputFn {
    type V = InputFnView;

    open spec fn view(&self) -> InputFnView {
        InputFnView {
            fn_vis: self.fn_vis@,
            fn_sig: self.fn_sig@,
            fn_body: self.fn_body@,
            async_strategy: self.async_strategy,
        }
    }
}

/// The views of a list of functions, in order.
pub open spec fn fn_views(v: Seq<&InputFn>) -> Seq<InputFnView> {
    v.map_values(|f: &InputFn| f@)
}

/// An item of a scope: a public function, or anything else, which is carried
/// as its text.
#[derive(Debug, PartialEq, Eq)]
pub enum ModItem {
    PubFn(InputFn),
    Unknown(String),
}

impl ModItem {
    /// Whether the item is a public function.
    pub open spec fn is_pub_fn(&self) -> bool {
        self is PubFn
    }

    /// The public function that the item is, if it is one.
    pub fn filter_pub_fn(&self) -> (r: Option<&InputFn>)
        ensures
            r == (match self {
                ModItem::PubFn(f) => Some(f),
                ModItem::Unknown(_) => None,
            }),
    {
        match self {
            ModItem::PubFn(f) => Some(f),
            ModItem::Unknown(_) => None,
        }
    }
}

/// The public functions among `items`, in their order.
pub open spec fn pub_fns(items: Seq<ModItem>) -> Seq<InputFnView>
    decreases items.len(),
{
    if items.len() == 0 {
        Seq::empty()
    } else {
        match items.last() {
            ModItem::PubFn(f) => pub_fns(items.drop_last()).push(f@),
            ModItem::Unknown(_) => pub_fns(items.drop_last()),
        }
    }
}

/// A scope with its items.
#[derive(Debug, PartialEq, Eq)]
pub struct InputMod {
    pub vis: Visibility,
    pub ident: String,
    pub items: Vec<ModItem>,
}

impl InputMod {
    /// The public functions of the scope, in declaration order.
    pub fn pub_fns(&self) -> (r: Vec<&InputFn>)
        ensures
            fn_views(r@) == pub_fns(self.items@),
    {
        let mut r: Vec<&InputFn> = Vec::new();
        let mut i: usize = 0;
        while i < self.items.len()
            invariant
                i <= self.items.len(),
                fn_views(r@) == pub_fns(self.items@.take(i as int)),
            decreases self.items.len() - i,
        {
            proof {
                assert(self.items@.take(i + 1).drop_last() =~= self.items@.take(i as int));
            }
            match self.items[i].filter_pub_fn() {
                Some(f) => {
                    let ghost before = r@;
                    r.push(f);
                    proof {
                        assert(fn_views(r@) =~= fn_views(before).push(f@));
                    }
                },
                None => {},
            }
            i += 1;
        }
        proof {
            assert(self.items@.take(self.items.len() as int) =~= self.items@);
        }
        r
    }
}

/// What an invocation was attached to.
#[derive(Clone, Copy, Debug, PartialEq, Eq, Structural)]
pub enum FnInputMode {
    /// One function.
    SingleFn,
    /// A scope of functions.
    Module,
}


/// Copies the parameters at and behind `from`.
pub fn clone_params(v: &Vec<FnParam>, from: usize) -> (r: Vec<FnParam>)
    requires
        from <= v.len(),
    ensures
        param_views(r@) == param_views(v@).skip(from as int),
{
    let mut r: Vec<FnParam> = Vec::new();
    let mut i: usize = from;
    while i < v.len()
        invariant
            from <= i <= v.len(),
            r@.len() == i - from,
            param_views(r@) == param_views(v@).subrange(from as int, i as int),
        decreases v.len() - i,
    {
        let ghost before = r@;
        let item = v[i].clone();
        r.push(item);
        proof {
            assert(param_views(r@) =~= param_views(before).push(item@));
            assert(param_views(r@) =~= param_views(v@).subrange(from as int, i + 1));
        }
        i += 1;
    }
    proof {
        assert(param_views(v@).subrange(from as int, v.len() as int) =~= param_views(v@).skip(
            from as int,
        ));
    }
    r
}

} // verus!
