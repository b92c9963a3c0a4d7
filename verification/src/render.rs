use crate::entrait_fn::pattern_text;
use crate::input::{
    Borrow, FnParam, FnParamView, GenericParam, GenericParamView, ParamPattern, generic_views,
};
use crate::opt::{Visibility, VisibilityView};
use crate::output::{
    ArtifactView, AssociatedFuture, AssociatedFutureView, Delegation, DelegationView,
    GeneratedArtifact, ImplBlock, ImplBlockView, ImplItem, ImplItemView, Marker, MethodOutput,
    MethodOutputView, MethodSig, MethodSigView, ReExport, ReExportView, TraitDef, TraitDefView,
    TraitItem, TraitItemView,
};
use crate::text::{Text, clone_text, texts};
use vstd::prelude::*;
use vstd::string::*;

verus! {

/// `items` with `sep` between each two.
pub open spec fn join(items: Seq<Text>, sep: Text) -> Text
    decreases items.len(),
{
    if items.len() == 0 {
        Seq::empty()
    } else if items.len() == 1 {
        items[0]
    } else {
        join(items.drop_last(), sep) + sep + items.last()
    }
}

/// A list between `start` and `end` with `sep` between its items; nothing
/// at all for no items.
pub open spec fn enclosed(start: Text, sep: Text, end: Text, items: Seq<Text>) -> Text {
    if items.len() == 0 {
        Seq::empty()
    } else {
        start + join(items, sep) + end
    }
}

/// Writes `items` behind `out`, with `sep` between each two.
pub fn append_joined(out: &mut String, items: &Vec<String>, sep: &str)
    ensures
        final(out)@ == old(out)@ + join(texts(items@), sep@),
{
    let mut i: usize = 0;
    proof {
        assert(texts(items@).take(0) =~= Seq::<Text>::empty());
        assert(out@ =~= old(out)@ + join(texts(items@).take(0), sep@));
    }
    while i < items.len()
        invariant
            i <= items.len(),
            out@ == old(out)@ + join(texts(items@).take(i as int), sep@),
        decreases items.len() - i,
    {
        let ghost before = out@;
        proof {
            assert(texts(items@).take(i + 1).drop_last() =~= texts(items@).take(i as int));
            assert(texts(items@).take(i + 1).last() == items@[i as int]@);
        }
        if i > 0 {
            out.append(sep);
        }
        out.append(items[i].as_str());
        proof {
            assert(out@ =~= old(out)@ + join(texts(items@).take(i + 1), sep@));
        }
        i += 1;
    }
    proof {
        assert(texts(items@).take(items.len() as int) =~= texts(items@));
    }
}

/// Writes `items` behind `out` as a list between `start` and `end`, with
/// `sep` between each two; nothing for no items.
pub fn append_enclosed(out: &mut String, start: &str, sep: &str, end: &str, items: &Vec<String>)
    ensures
        final(out)@ == old(out)@ + enclosed(start@, sep@, end@, texts(items@)),
{
    if items.len() > 0 {
        out.append(start);
        append_joined(out, items, sep);
        out.append(end);
        proof {
            assert(out@ =~= old(out)@ + enclosed(start@, sep@, end@, texts(items@)));
        }
    } else {
        proof {
            assert(out@ =~= old(out)@ + enclosed(start@, sep@, end@, texts(items@)));
        }
    }
}

/// An access level as it is written, with the blank behind it.
pub open spec fn visibility_text(v: VisibilityView) -> Text {
    match v {
        VisibilityView::Inherited => Seq::empty(),
        VisibilityView::Public => "pub "@,
        VisibilityView::Crate => "pub(crate) "@,
        VisibilityView::Super => "pub(super) "@,
        VisibilityView::Restricted(path) => "pub(in "@ + path + ") "@,
    }
}

impl Visibility {
    /// The access level as text.
    pub fn render(&self) -> (r: String)
        ensures
            r@ == visibility_text(self@),
    {
        match self {
            Visibility::Inherited => String::new(),
            Visibility::Public => String::from_str("pub "),
            Visibility::Crate => String::from_str("pub(crate) "),
            Visibility::Super => String::from_str("pub(super) "),
            Visibility::Restricted(path) => {
                let mut r = String::from_str("pub(in ");
                r.append(path.as_str());
                r.append(") ");
                r
            },
        }
    }
}

/// A marker as it is written.
pub open spec fn marker_text(m: Marker) -> Text {
    match m {
        Marker::Unimock => "#[::unimock::unimock]"@,
        Marker::EntraitForTrait => "#[::entrait::entrait]"@,
        Marker::MockallAutomock => "#[::mockall::automock]"@,
        Marker::AsyncTrait => "#[::async_trait::async_trait]"@,
    }
}

impl Marker {
    /// The marker as text.
    pub fn render(&self) -> (r: String)
        ensures
            r@ == marker_text(*self),
    {
        match self {
            Marker::Unimock => String::from_str("#[::unimock::unimock]"),
            Marker::EntraitForTrait => String::from_str("#[::entrait::entrait]"),
            Marker::MockallAutomock => String::from_str("#[::mockall::automock]"),
            Marker::AsyncTrait => String::from_str("#[::async_trait::async_trait]"),
        }
    }
}

/// The markers in front of a declaration, each with a blank behind it.
pub open spec fn markers_text(markers: Seq<Marker>) -> Text {
    enclosed(Seq::empty(), " "@, " "@, Seq::new(markers.len(), |i: int| marker_text(markers[i])))
}

fn render_markers(markers: &Vec<Marker>) -> (r: String)
    ensures
        r@ == markers_text(markers@),
{
    let mut pieces: Vec<String> = Vec::new();
    let mut i: usize = 0;
    while i < markers.len()
        invariant
            i <= markers.len(),
            pieces@.len() == i,
            forall|k: int| 0 <= k < i ==> (#[trigger] pieces@[k])@ == marker_text(markers@[k]),
        decreases markers.len() - i,
    {
        pieces.push(markers[i].render());
        i += 1;
    }
    proof {
        assert(texts(pieces@) =~= Seq::new(markers@.len(), |i: int| marker_text(markers@[i])));
    }
    let mut r = String::new();
    append_enclosed(&mut r, "", " ", " ", &pieces);
    proof {
        reveal_strlit("");
        assert(""@ =~= Seq::<char>::empty());
        assert(r@ =~= markers_text(markers@));
    }
    r
}

/// A generic parameter with its bounds behind it, as it stands in a
/// where-clause.
pub open spec fn generic_text(g: GenericParamView) -> Text {
    g.name + enclosed(": "@, " + "@, Seq::empty(), g.bounds)
}

impl GenericParam {
    /// The parameter as text.
    pub fn render(&self) -> (r: String)
        ensures
            r@ == generic_text(self@),
    {
        let mut r = clone_text(&self.name);
        append_enclosed(&mut r, ": ", " + ", "", &self.bounds);
        proof {
            reveal_strlit("");
            assert(""@ =~= Seq::<char>::empty());
        }
        r
    }
}

/// A generic parameter as it is declared between angle brackets: its name,
/// or, for a constant, `const`, its name and its type.
pub open spec fn declared_text(g: GenericParamView) -> Text {
    match g.const_ty {
        Some(ty) => "const "@ + g.name + ": "@ + ty,
        None => g.name,
    }
}

impl GenericParam {
    /// The parameter as it is declared between angle brackets.
    pub fn render_declared(&self) -> (r: String)
        ensures
            r@ == declared_text(self@),
    {
        match &self.const_ty {
            Some(ty) => {
                let mut r = String::from_str("const ");
                r.append(self.name.as_str());
                r.append(": ");
                r.append(ty.as_str());
                r
            },
            None => clone_text(&self.name),
        }
    }
}

/// The declarations of a list of generic parameters in angle brackets;
/// nothing for none.
pub open spec fn generics_text(generics: Seq<GenericParamView>) -> Text {
    enclosed("<"@, ", "@, ">"@, Seq::new(generics.len(), |i: int| declared_text(generics[i])))
}

fn render_generics(generics: &Vec<GenericParam>) -> (r: String)
    ensures
        r@ == generics_text(generic_views(generics@)),
{
    let mut pieces: Vec<String> = Vec::new();
    let mut i: usize = 0;
    while i < generics.len()
        invariant
            i <= generics.len(),
            pieces@.len() == i,
            forall|k: int| 0 <= k < i ==> (#[trigger] pieces@[k])@ == declared_text(generics@[k]@),
        decreases generics.len() - i,
    {
        pieces.push(generics[i].render_declared());
        i += 1;
    }
    proof {
        assert(texts(pieces@) =~= Seq::new(
            generics@.len(),
            |i: int| declared_text(generic_views(generics@)[i]),
        ));
    }
    let mut r = String::new();
    append_enclosed(&mut r, "<", ", ", ">", &pieces);
    proof {
        assert(r@ =~= generics_text(generic_views(generics@)));
    }
    r
}

/// The entries of a where-clause: one for each parameter that has bounds,
/// in the order of the parameters.
pub open spec fn where_entries(generics: Seq<GenericParamView>) -> Seq<Text>
    decreases generics.len(),
{
    if generics.len() == 0 {
        Seq::empty()
    } else if generics.last().bounds.len() == 0 {
        where_entries(generics.drop_last())
    } else {
        where_entries(generics.drop_last()).push(generic_text(generics.last()))
    }
}

/// The where-clause of a list of generic parameters, with a blank in front
/// of it; nothing where no parameter has bounds.
pub open spec fn where_text(generics: Seq<GenericParamView>) -> Text {
    enclosed(" where "@, ", "@, Seq::empty(), where_entries(generics))
}

fn render_where(generics: &Vec<GenericParam>) -> (r: String)
    ensures
        r@ == where_text(generic_views(generics@)),
{
    let mut pieces: Vec<String> = Vec::new();
    let mut i: usize = 0;
    proof {
        assert(texts(pieces@) =~= where_entries(generic_views(generics@).take(0)));
    }
    while i < generics.len()
        invariant
            i <= generics.len(),
            texts(pieces@) == where_entries(generic_views(generics@).take(i as int)),
        decreases generics.len() - i,
    {
        proof {
            assert(generic_views(generics@).take(i + 1).drop_last() =~= generic_views(
                generics@,
            ).take(i as int));
            assert(generic_views(generics@).take(i + 1).last() == generics@[i as int]@);
            assert(generics@[i as int]@.bounds.len() == generics@[i as int].bounds@.len());
        }
        if generics[i].bounds.len() > 0 {
            let ghost before = pieces@;
            let piece = generics[i].render();
            pieces.push(piece);
            proof {
                assert(texts(pieces@) =~= texts(before).push(piece@));
            }
        }
        i += 1;
    }
    proof {
        assert(generic_views(generics@).take(generics.len() as int) =~= generic_views(generics@));
    }
    let mut r = String::new();
    append_enclosed(&mut r, " where ", ", ", "", &pieces);
    proof {
        reveal_strlit("");
        assert(""@ =~= Seq::<char>::empty());
        assert(r@ =~= where_text(generic_views(generics@)));
    }
    r
}

/// A list of generic arguments in angle brackets; nothing for none.
pub open spec fn arguments_text(args: Seq<Text>) -> Text {
    enclosed("<"@, ", "@, ">"@, args)
}

/// The lifetime of a borrow as it is written behind the `&`, with the
/// blank behind it; nothing where none is written.
pub open spec fn lifetime_text(lifetime: Option<Text>) -> Text {
    match lifetime {
        Some(name) => name + " "@,
        None => Seq::empty(),
    }
}

/// The way a type takes its value, as it is written in front of the type.
pub open spec fn borrow_text(b: Borrow, lifetime: Option<Text>) -> Text {
    match b {
        Borrow::Owned => Seq::empty(),
        Borrow::Shared => "&"@ + lifetime_text(lifetime),
        Borrow::Exclusive => "&"@ + lifetime_text(lifetime) + "mut "@,
    }
}

/// The receiver of a method.
pub open spec fn receiver_text(b: Borrow, lifetime: Option<Text>) -> Text {
    borrow_text(b, lifetime) + "self"@
}

fn render_borrow(b: Borrow, lifetime: &Option<String>) -> (r: String)
    ensures
        r@ == borrow_text(b, crate::text::opt_text(*lifetime)),
{
    match b {
        Borrow::Owned => String::new(),
        _ => {
            let mut r = String::from_str("&");
            match lifetime {
                Some(name) => {
                    r.append(name.as_str());
                    r.append(" ");
                },
                None => {},
            }
            match b {
                Borrow::Exclusive => {
                    r.append("mut ");
                },
                _ => {},
            }
            proof {
                assert(r@ =~= borrow_text(b, crate::text::opt_text(*lifetime)));
            }
            r
        },
    }
}

/// A parameter: pattern, colon, type.
pub open spec fn param_text(p: FnParamView) -> Text {
    pattern_text(p.pattern) + ": "@ + borrow_text(p.borrow, p.lifetime) + p.ty
}

impl FnParam {
    /// The parameter as text.
    pub fn render(&self) -> (r: String)
        ensures
            r@ == param_text(self@),
    {
        let mut r = match &self.pattern {
            ParamPattern::Ident(name) => clone_text(name),
            ParamPattern::Destructured(text) => clone_text(text),
        };
        r.append(": ");
        let b = render_borrow(self.borrow, &self.lifetime);
        r.append(b.as_str());
        r.append(self.ty.as_str());
        proof {
            assert(r@ =~= param_text(self@));
        }
        r
    }
}

/// What stands between the brackets of a method: the receiver, where there
/// is one, and the parameters.
pub open spec fn inputs_of(sig: MethodSigView) -> Seq<Text> {
    (match sig.receiver {
        Some(b) => seq![receiver_text(b, sig.receiver_lifetime)],
        None => Seq::empty(),
    }) + Seq::new(sig.inputs.len(), |i: int| param_text(sig.inputs[i]))
}

/// What a method returns, as it is written behind the brackets.
pub open spec fn output_text(o: MethodOutputView) -> Text {
    match o {
        MethodOutputView::Declared(None) => Seq::empty(),
        MethodOutputView::Declared(Some(ty)) => " -> "@ + ty,
        MethodOutputView::Future(ident) => " -> Self::"@ + ident,
    }
}

/// The signature of a method.
pub open spec fn sig_text(sig: MethodSigView) -> Text {
    (if sig.asyncness {
        "async "@
    } else {
        Seq::empty()
    }) + "fn "@ + sig.ident + "("@ + join(inputs_of(sig), ", "@) + ")"@ + output_text(sig.output)
}

impl MethodSig {
    /// The signature as text.
    pub fn render(&self) -> (r: String)
        ensures
            r@ == sig_text(self@),
    {
        let mut pieces: Vec<String> = Vec::new();
        match self.receiver {
            Some(b) => {
                let mut receiver = render_borrow(b, &self.receiver_lifetime);
                receiver.append("self");
                pieces.push(receiver);
            },
            None => {},
        }
        let ghost head = texts(pieces@);
        let ghost offset = pieces@.len();
        let mut i: usize = 0;
        while i < self.inputs.len()
            invariant
                i <= self.inputs.len(),
                pieces@.len() == offset + i,
                texts(pieces@).take(offset as int) == head,
                forall|k: int|
                    0 <= k < i ==> (#[trigger] pieces@[offset + k])@ == param_text(self.inputs@[k]@),
            decreases self.inputs.len() - i,
        {
            let ghost before = pieces@;
            pieces.push(self.inputs[i].render());
            proof {
                assert(texts(pieces@).take(offset as int) =~= texts(before).take(offset as int));
            }
            i += 1;
        }
        proof {
            assert(head =~= (match self@.receiver {
                Some(b) => seq![receiver_text(b, self@.receiver_lifetime)],
                None => Seq::<Text>::empty(),
            }));
            assert(texts(pieces@) =~= inputs_of(self@)) by {
                assert(texts(pieces@).len() == inputs_of(self@).len());
                assert forall|k: int| 0 <= k < texts(pieces@).len() implies texts(pieces@)[k]
                    == inputs_of(self@)[k] by {
                    if k < offset {
                        assert(texts(pieces@).take(offset as int)[k] == texts(pieces@)[k]);
                    } else {
                        assert(pieces@[offset + (k - offset)]@ == param_text(
                            self.inputs@[k - offset]@,
                        ));
                    }
                }
            }
        }
        let mut r = String::new();
        if self.asyncness {
            r.append("async ");
        }
        r.append("fn ");
        r.append(self.ident.as_str());
        r.append("(");
        append_joined(&mut r, &pieces, ", ");
        r.append(")");
        match &self.output {
            MethodOutput::Declared(None) => {},
            MethodOutput::Declared(Some(ty)) => {
                r.append(" -> ");
                r.append(ty.as_str());
            },
            MethodOutput::Future(ident) => {
                r.append(" -> Self::");
                r.append(ident.as_str());
            },
        }
        proof {
            assert(r@ =~= sig_text(self@));
        }
        r
    }
}

/// What a future yields, as it is written.
pub open spec fn yield_text(output: Option<Text>) -> Text {
    match output {
        Some(ty) => ty,
        None => "()"@,
    }
}

/// The declaration of a future type on the interface.
pub open spec fn future_decl_text(f: AssociatedFutureView) -> Text {
    "type "@ + f.ident + ": ::core::future::Future<Output = "@ + yield_text(f.output) + ">; "@
}

/// The binding of a future type on the implementation.
pub open spec fn future_impl_text(f: AssociatedFutureView) -> Text {
    "type "@ + f.ident + " = impl ::core::future::Future<Output = "@ + yield_text(f.output)
        + ">; "@
}

impl AssociatedFuture {
    /// The future type with `middle` between its name and what it yields.
    fn render_with(&self, middle: &str) -> (r: String)
        ensures
            r@ == "type "@ + self@.ident + middle@ + yield_text(self@.output) + ">; "@,
    {
        let mut r = String::from_str("type ");
        r.append(self.ident.as_str());
        r.append(middle);
        match &self.output {
            Some(ty) => {
                r.append(ty.as_str());
            },
            None => {
                r.append("()");
            },
        }
        r.append(">; ");
        r
    }

    /// The declaration of the future type on the interface, as text.
    pub fn render_decl(&self) -> (r: String)
        ensures
            r@ == future_decl_text(self@),
    {
        self.render_with(": ::core::future::Future<Output = ")
    }

    /// The binding of the future type on the implementation, as text.
    pub fn render_impl(&self) -> (r: String)
        ensures
            r@ == future_impl_text(self@),
    {
        self.render_with(" = impl ::core::future::Future<Output = ")
    }
}

/// One entry of the interface.
pub open spec fn trait_item_text(t: TraitItemView) -> Text {
    (match t.associated_fut_decl {
        Some(f) => future_decl_text(f),
        None => Seq::empty(),
    }) + sig_text(t.sig) + ";"@
}

impl TraitItem {
    /// The entry as text.
    pub fn render(&self) -> (r: String)
        ensures
            r@ == trait_item_text(self@),
    {
        let mut r = match &self.associated_fut_decl {
            Some(f) => f.render_decl(),
            None => String::new(),
        };
        let sig = self.sig.render();
        r.append(sig.as_str());
        r.append(";");
        proof {
            assert(r@ =~= trait_item_text(self@));
        }
        r
    }
}

/// What stands between the brackets of a delegating call.
pub open spec fn call_inputs(c: DelegationView) -> Seq<Text> {
    (if c.pass_self {
        seq!["self"@]
    } else {
        Seq::empty()
    }) + c.arguments
}

/// The delegating call.
pub open spec fn call_text(c: DelegationView) -> Text {
    c.callee + "("@ + join(call_inputs(c), ", "@) + ")"@ + (if c.dot_await {
        ".await"@
    } else {
        Seq::empty()
    })
}

impl Delegation {
    /// The call as text.
    pub fn render(&self) -> (r: String)
        ensures
            r@ == call_text(self@),
    {
        let mut pieces: Vec<String> = Vec::new();
        if self.pass_self {
            pieces.push(String::from_str("self"));
        }
        let ghost offset = pieces@.len();
        let ghost head = texts(pieces@);
        let mut i: usize = 0;
        while i < self.arguments.len()
            invariant
                i <= self.arguments.len(),
                pieces@.len() == offset + i,
                texts(pieces@).take(offset as int) == head,
                forall|k: int| 0 <= k < i ==> (#[trigger] pieces@[offset + k])@ == self.arguments@[k]@,
            decreases self.arguments.len() - i,
        {
            let ghost before = pieces@;
            pieces.push(clone_text(&self.arguments[i]));
            proof {
                assert(texts(pieces@).take(offset as int) =~= texts(before).take(offset as int));
            }
            i += 1;
        }
        proof {
            assert(head =~= (if self.pass_self {
                seq!["self"@]
            } else {
                Seq::<Text>::empty()
            }));
            assert(texts(pieces@) =~= call_inputs(self@)) by {
                assert(texts(pieces@).len() == call_inputs(self@).len());
                assert forall|k: int| 0 <= k < texts(pieces@).len() implies texts(pieces@)[k]
                    == call_inputs(self@)[k] by {
                    if k < offset {
                        assert(texts(pieces@).take(offset as int)[k] == texts(pieces@)[k]);
                    } else {
                        assert(pieces@[offset + (k - offset)]@ == self.arguments@[k - offset]@);
                    }
                }
            }
        }
        let mut r = clone_text(&self.callee);
        r.append("(");
        append_joined(&mut r, &pieces, ", ");
        r.append(")");
        if self.dot_await {
            r.append(".await");
        }
        proof {
            assert(r@ =~= call_text(self@));
        }
        r
    }
}

/// One entry of the implementation.
pub open spec fn impl_item_text(t: ImplItemView) -> Text {
    (match t.associated_fut_impl {
        Some(f) => future_impl_text(f),
        None => Seq::empty(),
    }) + sig_text(t.sig) + " { "@ + call_text(t.call) + " }"@
}

impl ImplItem {
    /// The entry as text.
    pub fn render(&self) -> (r: String)
        ensures
            r@ == impl_item_text(self@),
    {
        let mut r = match &self.associated_fut_impl {
            Some(f) => f.render_impl(),
            None => String::new(),
        };
        let sig = self.sig.render();
        r.append(sig.as_str());
        r.append(" { ");
        let call = self.call.render();
        r.append(call.as_str());
        r.append(" }");
        proof {
            assert(r@ =~= impl_item_text(self@));
        }
        r
    }
}

/// The entries of a declaration, each with a blank behind it.
pub open spec fn body_text(items: Seq<Text>) -> Text {
    enclosed(Seq::empty(), " "@, " "@, items)
}

/// The text of the interface.
pub open spec fn trait_def_text(t: TraitDefView) -> Text {
    markers_text(t.markers) + visibility_text(t.visibility) + "trait "@ + t.ident + generics_text(
        t.generics,
    ) + where_text(t.generics) + " { "@ + body_text(
        Seq::new(t.items.len(), |i: int| trait_item_text(t.items[i])),
    ) + "}"@
}

impl TraitDef {
    /// The interface as text.
    pub fn render(&self) -> (r: String)
        ensures
            r@ == trait_def_text(self@),
    {
        let mut pieces: Vec<String> = Vec::new();
        let mut i: usize = 0;
        while i < self.items.len()
            invariant
                i <= self.items.len(),
                pieces@.len() == i,
                forall|k: int|
                    0 <= k < i ==> (#[trigger] pieces@[k])@ == trait_item_text(self.items@[k]@),
            decreases self.items.len() - i,
        {
            pieces.push(self.items[i].render());
            i += 1;
        }
        proof {
            assert(texts(pieces@) =~= Seq::new(
                self@.items.len(),
                |i: int| trait_item_text(self@.items[i]),
            ));
        }
        let mut r = render_markers(&self.markers);
        let vis = self.visibility.render();
        r.append(vis.as_str());
        r.append("trait ");
        r.append(self.ident.as_str());
        let generics = render_generics(&self.generics);
        r.append(generics.as_str());
        let bounds = render_where(&self.generics);
        r.append(bounds.as_str());
        r.append(" { ");
        append_enclosed(&mut r, "", " ", " ", &pieces);
        r.append("}");
        proof {
            reveal_strlit("");
            assert(""@ =~= Seq::<char>::empty());
            assert(r@ =~= trait_def_text(self@));
        }
        r
    }
}

/// The text of the implementation.
pub open spec fn impl_block_text(b: ImplBlockView) -> Text {
    markers_text(b.markers) + "impl"@ + generics_text(b.params) + " "@ + b.trait_ident
        + arguments_text(b.args) + " for "@ + b.self_ty + where_text(b.params) + " { "@ + body_text(
        Seq::new(b.items.len(), |i: int| impl_item_text(b.items[i])),
    ) + "}"@
}

impl ImplBlock {
    /// The implementation as text.
    pub fn render(&self) -> (r: String)
        ensures
            r@ == impl_block_text(self@),
    {
        let mut pieces: Vec<String> = Vec::new();
        let mut i: usize = 0;
        while i < self.items.len()
            invariant
                i <= self.items.len(),
                pieces@.len() == i,
                forall|k: int|
                    0 <= k < i ==> (#[trigger] pieces@[k])@ == impl_item_text(self.items@[k]@),
            decreases self.items.len() - i,
        {
            pieces.push(self.items[i].render());
            i += 1;
        }
        proof {
            assert(texts(pieces@) =~= Seq::new(
                self@.items.len(),
                |i: int| impl_item_text(self@.items[i]),
            ));
        }
        let mut r = render_markers(&self.markers);
        r.append("impl");
        let params = render_generics(&self.params);
        r.append(params.as_str());
        r.append(" ");
        r.append(self.trait_ident.as_str());
        append_enclosed(&mut r, "<", ", ", ">", &self.args);
        r.append(" for ");
        r.append(self.self_ty.as_str());
        let bounds = render_where(&self.params);
        r.append(bounds.as_str());
        r.append(" { ");
        append_enclosed(&mut r, "", " ", " ", &pieces);
        r.append("}");
        proof {
            reveal_strlit("");
            assert(""@ =~= Seq::<char>::empty());
            assert(r@ =~= impl_block_text(self@));
        }
        r
    }
}

/// The text of the statement that makes the interface visible outside its
/// scope.
pub open spec fn reexport_text(r: ReExportView) -> Text {
    visibility_text(r.visibility) + "use "@ + r.module + "::"@ + r.ident + ";"@
}

impl ReExport {
    /// The statement as text.
    pub fn render(&self) -> (r: String)
        ensures
            r@ == reexport_text(self@),
    {
        let mut r = self.visibility.render();
        r.append("use ");
        r.append(self.module.as_str());
        r.append("::");
        r.append(self.ident.as_str());
        r.append(";");
        proof {
            assert(r@ =~= reexport_text(self@));
        }
        r
    }
}

/// The text of all that was generated: interface, implementation and,
/// for a scope, the statement, with a blank between each two.
pub open spec fn artifact_text(a: ArtifactView) -> Text {
    trait_def_text(a.trait_def) + " "@ + impl_block_text(a.impl_block) + (match a.reexport {
        Some(r) => " "@ + reexport_text(r),
        None => Seq::empty(),
    })
}

impl GeneratedArtifact {
    /// All that was generated, as one text.
    pub fn render(&self) -> (r: String)
        ensures
            r@ == artifact_text(self@),
    {
        let mut r = self.trait_def.render();
        r.append(" ");
        let block = self.impl_block.render();
        r.append(block.as_str());
        match &self.reexport {
            Some(reexport) => {
                r.append(" ");
                let statement = reexport.render();
                r.append(statement.as_str());
            },
            None => {},
        }
        proof {
            assert(r@ =~= artifact_text(self@));
        }
        r
    }
}

} // verus!
