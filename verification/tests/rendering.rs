use entrait_macros::entrait_fn::{gen_delegating_fn_item, EntraitSignature, TraitFn};
use entrait_macros::generics::{attach_where_bounds, FnDeps, GenericsAnalyzer};
use entrait_macros::input::{Borrow, FnParam, GenericParam, InputFn, ParamPattern, Signature};
use entrait_macros::naming::{decimal_text, make_fresh};
use entrait_macros::opt::{AsyncStrategy, Opts, Visibility};
use entrait_macros::output::{
    AssociatedFuture, Delegation, ImplBlock, Marker, MethodOutput, MethodSig, ReExport, TraitDef,
};
use entrait_macros::render::{append_enclosed, append_joined};
use entrait_macros::strategy::{
    has_any_async, select_representation, select_strategy, AsyncRepresentation,
};
use entrait_macros::text::{append_texts, contains_text, extend_new, has_same_texts, same_opt_text};

fn strings(items: &[&str]) -> Vec<String> {
    items.iter().map(|s| s.to_string()).collect()
}

fn function(ident: &str, asyncness: bool, inputs: Vec<FnParam>) -> InputFn {
    InputFn {
        fn_vis: Visibility::Public,
        fn_sig: Signature {
            ident: ident.to_string(),
            asyncness,
            generics: vec![GenericParam { name: "T".to_string(), bounds: strings(&["Send"]), const_ty: None }],
            inputs,
            output: None,
        },
        fn_body: String::new(),
        async_strategy: None,
    }
}

fn param(name: &str, borrow: Borrow, ty: &str) -> FnParam {
    FnParam {
        pattern: ParamPattern::Ident(name.to_string()),
        borrow,
        lifetime: None,
        ty: ty.to_string(),
    }
}

#[test]
fn numbers_are_written_in_decimal() {
    assert_eq!(decimal_text(0), "0");
    assert_eq!(decimal_text(7), "7");
    assert_eq!(decimal_text(10), "10");
    assert_eq!(decimal_text(109), "109");
    assert_eq!(decimal_text(1234567890), "1234567890");
}

#[test]
fn a_free_name_is_kept_and_a_taken_one_is_made_longer() {
    let taken = strings(&["A", "B", "B_", "B__"]);
    assert_eq!(make_fresh(&"C".to_string(), &"_".to_string(), &taken), "C");
    assert_eq!(make_fresh(&"A".to_string(), &"_".to_string(), &taken), "A_");
    assert_eq!(make_fresh(&"B".to_string(), &"_".to_string(), &taken), "B___");
    assert_eq!(make_fresh(&"B".to_string(), &"12".to_string(), &taken), "B12");
    assert_eq!(make_fresh(&"B".to_string(), &"_".to_string(), &vec![]), "B");
}

#[test]
fn texts_are_compared_as_sets() {
    assert!(has_same_texts(&strings(&["Send", "Sync"]), &strings(&["Sync", "Send", "Sync"])));
    assert!(has_same_texts(&strings(&[]), &strings(&[])));
    assert!(!has_same_texts(&strings(&["Send"]), &strings(&["Send", "Sync"])));
    assert!(!has_same_texts(&strings(&["Send"]), &strings(&[])));
    assert!(contains_text(&strings(&["a", "b"]), &"b".to_string()));
    assert!(!contains_text(&strings(&["a", "b"]), &"c".to_string()));
}

#[test]
fn new_texts_are_added_once_in_first_seen_order() {
    let mut base = strings(&["Log", "Clock"]);
    extend_new(&mut base, &strings(&["Store", "Log", "Store", "Rng"]));
    assert_eq!(base, strings(&["Log", "Clock", "Store", "Rng"]));
}

#[test]
fn lists_are_joined_and_enclosed() {
    let mut out = "x".to_string();
    append_joined(&mut out, &strings(&["a", "b", "c"]), ", ");
    assert_eq!(out, "xa, b, c");
    append_joined(&mut out, &strings(&[]), ", ");
    assert_eq!(out, "xa, b, c");
    append_enclosed(&mut out, "<", "+", ">", &strings(&["p"]));
    assert_eq!(out, "xa, b, c<p>");
    append_enclosed(&mut out, "<", "+", ">", &strings(&[]));
    assert_eq!(out, "xa, b, c<p>");
    append_enclosed(&mut out, "[", "|", "]", &strings(&["1", "2"]));
    assert_eq!(out, "xa, b, c<p>[1|2]");
}

#[test]
fn each_visibility_has_its_text() {
    assert_eq!(Visibility::Inherited.render(), "");
    assert_eq!(Visibility::Public.render(), "pub ");
    assert_eq!(Visibility::Crate.render(), "pub(crate) ");
    assert_eq!(Visibility::Super.render(), "pub(super) ");
    assert_eq!(Visibility::Restricted("a::b".to_string()).render(), "pub(in a::b) ");
}

#[test]
fn each_marker_has_its_text() {
    assert_eq!(Marker::Unimock.render(), "#[::unimock::unimock]");
    assert_eq!(Marker::EntraitForTrait.render(), "#[::entrait::entrait]");
    assert_eq!(Marker::MockallAutomock.render(), "#[::mockall::automock]");
    assert_eq!(Marker::AsyncTrait.render(), "#[::async_trait::async_trait]");
}

#[test]
fn a_signature_is_written_with_receiver_parameters_and_output() {
    let mut sig = MethodSig {
        ident: "put".to_string(),
        asyncness: false,
        receiver: Some(Borrow::Exclusive),
        receiver_lifetime: None,
        inputs: vec![param("key", Borrow::Owned, "K"), param("value", Borrow::Exclusive, "V")],
        output: MethodOutput::Declared(Some("bool".to_string())),
    };
    assert_eq!(sig.render(), "fn put(&mut self, key: K, value: &mut V) -> bool");
    sig.receiver = Some(Borrow::Owned);
    sig.asyncness = true;
    sig.output = MethodOutput::Declared(None);
    assert_eq!(sig.render(), "async fn put(self, key: K, value: &mut V)");
    sig.receiver = None;
    sig.inputs.clear();
    sig.output = MethodOutput::Future("Fut__put".to_string());
    assert_eq!(sig.render(), "async fn put() -> Self::Fut__put");
    assert_eq!(param("n", Borrow::Shared, "u8").render(), "n: &u8");
    assert_eq!(GenericParam { name: "T".to_string(), bounds: vec![], const_ty: None }.render(), "T");
    assert_eq!(
        GenericParam { name: "T".to_string(), bounds: strings(&["A", "B"]), const_ty: None }.render(),
        "T: A + B"
    );
}

#[test]
fn a_future_is_declared_and_bound() {
    let future = AssociatedFuture { ident: "Fut__get".to_string(), output: Some("u8".to_string()) };
    assert_eq!(future.render_decl(), "type Fut__get: ::core::future::Future<Output = u8>; ");
    assert_eq!(future.render_impl(), "type Fut__get = impl ::core::future::Future<Output = u8>; ");
    let unit = AssociatedFuture { ident: "Fut__run".to_string(), output: None };
    assert_eq!(unit.render_impl(), "type Fut__run = impl ::core::future::Future<Output = ()>; ");
}

#[test]
fn a_call_is_written_with_its_arguments() {
    let mut call = Delegation {
        callee: "get".to_string(),
        pass_self: true,
        arguments: strings(&["a", "b"]),
        dot_await: true,
    };
    assert_eq!(call.render(), "get(self, a, b).await");
    call.pass_self = false;
    call.dot_await = false;
    assert_eq!(call.render(), "get(a, b)");
    call.arguments.clear();
    assert_eq!(call.render(), "get()");
    call.pass_self = true;
    assert_eq!(call.render(), "get(self)");
}

#[test]
fn empty_declarations_are_written_with_empty_bodies() {
    let def = TraitDef {
        markers: vec![],
        visibility: Visibility::Crate,
        ident: "Empty".to_string(),
        generics: vec![],
        items: vec![],
    };
    assert_eq!(def.render(), "pub(crate) trait Empty { }");
    let block = ImplBlock {
        markers: vec![],
        params: vec![],
        trait_ident: "Empty".to_string(),
        args: vec![],
        self_ty: "App".to_string(),
        items: vec![],
    };
    assert_eq!(block.render(), "impl Empty for App { }");
    let reexport = ReExport {
        visibility: Visibility::Public,
        module: "inner".to_string(),
        ident: "Empty".to_string(),
    };
    assert_eq!(reexport.render(), "pub use inner::Empty;");
    let private =
        ReExport { visibility: Visibility::Inherited, module: "m".to_string(), ident: "T".to_string() };
    assert_eq!(private.render(), "use m::T;");
}

#[test]
fn the_first_parameter_decides_the_dependency() {
    let none = function("none", false, vec![]);
    assert_eq!(FnDeps::analyze(&none.fn_sig, &None), FnDeps::NoDeps);

    let generic = function("generic", false, vec![param("deps", Borrow::Shared, "T")]);
    let expected = FnDeps::Generic { dep_param: "T".to_string(), required_bounds: strings(&["Send"]) };
    assert_eq!(FnDeps::analyze(&generic.fn_sig, &None), expected);
    assert_eq!(FnDeps::analyze(&generic.fn_sig, &Some("App".to_string())), expected);

    let fixed = function("fixed", false, vec![param("app", Borrow::Shared, "App")]);
    assert_eq!(FnDeps::analyze(&fixed.fn_sig, &None), FnDeps::Concrete("App".to_string()));
    assert_eq!(
        FnDeps::analyze(&fixed.fn_sig, &Some("App".to_string())),
        FnDeps::Concrete("App".to_string())
    );
    assert_eq!(FnDeps::analyze(&fixed.fn_sig, &Some("Db".to_string())), FnDeps::NoDeps);

    assert!(FnDeps::NoDeps.is_compatible(&expected));
    assert!(expected.is_compatible(&FnDeps::NoDeps));
    assert!(FnDeps::Concrete("A".to_string()).is_compatible(&FnDeps::Concrete("A".to_string())));
    assert!(!FnDeps::Concrete("A".to_string()).is_compatible(&FnDeps::Concrete("B".to_string())));
    assert!(!FnDeps::Concrete("A".to_string()).is_compatible(&FnDeps::NoDeps));
    assert!(!expected.is_compatible(&FnDeps::Concrete("A".to_string())));
}

#[test]
fn the_dependency_parameter_is_kept_out_of_the_generics() {
    let generic = function("generic", false, vec![param("deps", Borrow::Shared, "T")]);
    let deps = FnDeps::analyze(&generic.fn_sig, &None);
    let mut analyzer = GenericsAnalyzer::new();
    assert_eq!(analyzer.analyze_fn(&generic.fn_sig, &deps), Ok(()));
    assert!(analyzer.into_trait_generics().params.is_empty());

    let mut analyzer = GenericsAnalyzer::new();
    assert_eq!(analyzer.analyze_fn(&generic.fn_sig, &FnDeps::NoDeps), Ok(()));
    let mut other = function("other", false, vec![]);
    other.fn_sig.generics.insert(0, GenericParam { name: "U".to_string(), bounds: vec![], const_ty: None });
    other.fn_sig.generics[1].bounds = strings(&["Sync"]);
    assert_eq!(analyzer.analyze_fn(&other.fn_sig, &FnDeps::NoDeps), Err(1));
}

#[test]
fn a_future_is_used_for_an_asynchronous_function_under_that_strategy_only() {
    let waits = function("waits", true, vec![]);
    let plain = function("plain", false, vec![]);
    for (strategy, expected) in [
        (AsyncStrategy::NoHack, false),
        (AsyncStrategy::AssociatedFuture, true),
        (AsyncStrategy::AsyncTrait, false),
    ] {
        let opts = Opts { async_strategy: strategy, unimock: false, mockall: false };
        assert_eq!(waits.use_associated_future(&opts), expected);
        assert!(!plain.use_associated_future(&opts));
        assert_eq!(opts.async_strategy(), strategy);
    }
    assert!(waits.opt_dot_await());
    assert!(!plain.opt_dot_await());
}

#[test]
fn the_representation_follows_the_decision_table() {
    assert_eq!(select_representation(AsyncStrategy::NoHack, false), AsyncRepresentation::NotNeeded);
    assert_eq!(select_representation(AsyncStrategy::NoHack, true), AsyncRepresentation::Native);
    assert_eq!(
        select_representation(AsyncStrategy::AssociatedFuture, true),
        AsyncRepresentation::AssociatedFuture
    );
    assert_eq!(
        select_representation(AsyncStrategy::AsyncTrait, true),
        AsyncRepresentation::CompatibilityAttribute
    );
    assert_eq!(
        select_representation(AsyncStrategy::AssociatedFuture, false),
        AsyncRepresentation::NotNeeded
    );
    assert_eq!(
        select_representation(AsyncStrategy::AsyncTrait, false),
        AsyncRepresentation::NotNeeded
    );
}

#[test]
fn the_strategy_of_a_group_is_the_first_that_is_forced() {
    let waits = function("waits", true, vec![]);
    let mut asks = function("asks", true, vec![]);
    asks.async_strategy = Some(AsyncStrategy::AsyncTrait);
    let plain = function("plain", false, vec![]);
    assert!(has_any_async(&vec![&plain, &waits]));
    assert!(!has_any_async(&vec![&plain]));
    assert!(!has_any_async(&vec![]));
    assert_eq!(select_strategy(AsyncStrategy::NoHack, &vec![&waits, &plain]), Ok(AsyncStrategy::NoHack));
    assert_eq!(
        select_strategy(AsyncStrategy::NoHack, &vec![&waits, &asks]),
        Ok(AsyncStrategy::AsyncTrait)
    );
    assert_eq!(
        select_strategy(AsyncStrategy::AsyncTrait, &vec![&waits, &asks]),
        Ok(AsyncStrategy::AsyncTrait)
    );
    assert!(select_strategy(AsyncStrategy::AssociatedFuture, &vec![&waits, &asks]).is_err());
}

#[test]
fn a_function_is_analyzed_into_its_method() {
    let source = function(
        "fetch",
        true,
        vec![param("deps", Borrow::Shared, "T"), param("id", Borrow::Owned, "u64")],
    );
    let deps = FnDeps::analyze(&source.fn_sig, &None);
    let opts = Opts { async_strategy: AsyncStrategy::AssociatedFuture, unimock: false, mockall: false };
    let analyzed = TraitFn::analyze(&source, deps, &opts);
    assert_eq!(analyzed.sig().ident, "fetch");
    assert!(!analyzed.sig().asyncness);
    assert_eq!(analyzed.sig().receiver, Some(Borrow::Shared));
    assert_eq!(analyzed.sig().inputs, vec![param("id", Borrow::Owned, "u64")]);
    assert_eq!(analyzed.sig().output, MethodOutput::Future("Fut__fetch".to_string()));
    assert_eq!(analyzed.sig().render(), "fn fetch(&self, id: u64) -> Self::Fut__fetch");
    assert_eq!(
        analyzed.entrait_sig.associated_fut_decl,
        Some(AssociatedFuture { ident: "Fut__fetch".to_string(), output: None })
    );
    assert_eq!(analyzed.entrait_sig.associated_fut_decl, analyzed.entrait_sig.associated_fut_impl);
}

#[test]
fn bounds_are_written_in_a_where_clause() {
    let def = TraitDef {
        markers: vec![Marker::Unimock, Marker::MockallAutomock],
        visibility: Visibility::Public,
        ident: "Bounded".to_string(),
        generics: vec![
            GenericParam { name: "A".to_string(), bounds: vec![], const_ty: None },
            GenericParam { name: "B".to_string(), bounds: strings(&["Send", "Sync"]), const_ty: None },
            GenericParam { name: "C".to_string(), bounds: strings(&["Clone"]), const_ty: None },
        ],
        items: vec![],
    };
    assert_eq!(
        def.render(),
        "#[::unimock::unimock] #[::mockall::automock] \
         pub trait Bounded<A, B, C> where B: Send + Sync, C: Clone { }"
    );
    let block = ImplBlock {
        markers: vec![Marker::AsyncTrait],
        params: vec![
            GenericParam { name: "D".to_string(), bounds: strings(&["Deps"]), const_ty: None },
            GenericParam { name: "A".to_string(), bounds: vec![], const_ty: None },
        ],
        trait_ident: "Bounded".to_string(),
        args: strings(&["A"]),
        self_ty: "D".to_string(),
        items: vec![],
    };
    assert_eq!(
        block.render(),
        "#[::async_trait::async_trait] impl<D, A> Bounded<A> for D where D: Deps { }"
    );
}

#[test]
fn the_receiver_is_handed_on_by_dependency_and_inputs() {
    let source = function("act", false, vec![]);
    let method = |receiver: Option<Borrow>, inputs: Vec<FnParam>| EntraitSignature {
        sig: MethodSig {
            ident: "act".to_string(),
            asyncness: false,
            receiver,
            receiver_lifetime: None,
            inputs,
            output: MethodOutput::Declared(None),
        },
        associated_fut_decl: None,
        associated_fut_impl: None,
    };
    let concrete = || FnDeps::Concrete("App".to_string());
    let cases = [
        (concrete(), Some(Borrow::Shared), vec![], true),
        (concrete(), Some(Borrow::Shared), vec![param("n", Borrow::Owned, "u8")], true),
        (concrete(), None, vec![param("n", Borrow::Owned, "u8")], true),
        (concrete(), None, vec![], false),
        (FnDeps::NoDeps, Some(Borrow::Shared), vec![param("n", Borrow::Owned, "u8")], false),
        (FnDeps::NoDeps, Some(Borrow::Shared), vec![], false),
        (FnDeps::NoDeps, None, vec![], false),
        (
            FnDeps::Generic { dep_param: "T".to_string(), required_bounds: vec![] },
            Some(Borrow::Exclusive),
            vec![],
            true,
        ),
    ];
    for (deps, receiver, inputs, expected) in cases {
        let names: Vec<String> = inputs
            .iter()
            .map(|input| match &input.pattern {
                ParamPattern::Ident(name) => name.clone(),
                ParamPattern::Destructured(text) => text.clone(),
            })
            .collect();
        let analyzed = TraitFn { source: &source, deps, entrait_sig: method(receiver, inputs) };
        let item = gen_delegating_fn_item(&analyzed);
        assert_eq!(item.call.pass_self, expected);
        assert_eq!(item.call.callee, "act");
        assert_eq!(item.call.arguments, names);
        assert!(!item.call.dot_await);
    }
}

#[test]
fn the_bounds_of_a_where_clause_go_to_their_parameters() {
    let bounded = |name: &str, bounds: &[&str]| GenericParam {
        name: name.to_string(),
        bounds: strings(bounds),
        const_ty: None,
    };
    let params = vec![
        bounded("A", &["Send"]),
        bounded("B", &[]),
        GenericParam { name: "N".to_string(), bounds: vec![], const_ty: Some("u8".to_string()) },
    ];
    let predicates = vec![
        bounded("B", &["Clone"]),
        bounded("A", &["Sync", "Send"]),
        bounded("Vec<A>", &["Default"]),
        bounded("B", &["Copy"]),
        bounded("Vec<A>", &["Eq"]),
    ];
    assert_eq!(
        attach_where_bounds(params, &predicates),
        vec![
            bounded("A", &["Send", "Sync", "Send"]),
            bounded("B", &["Clone", "Copy"]),
            GenericParam { name: "N".to_string(), bounds: vec![], const_ty: Some("u8".to_string()) },
            bounded("Vec<A>", &["Default", "Eq"]),
        ]
    );
    assert_eq!(attach_where_bounds(vec![], &vec![]), vec![]);
    assert_eq!(attach_where_bounds(vec![bounded("A", &[])], &vec![]), vec![bounded("A", &[])]);
}

#[test]
fn a_constant_parameter_is_told_from_a_type_of_its_name() {
    let constant =
        GenericParam { name: "N".to_string(), bounds: vec![], const_ty: Some("usize".to_string()) };
    assert_eq!(constant.render_declared(), "const N: usize");
    assert_eq!(
        GenericParam { name: "T".to_string(), bounds: strings(&["A"]), const_ty: None }
            .render_declared(),
        "T"
    );
    let mut first = function("first", false, vec![]);
    first.fn_sig.generics = vec![GenericParam {
        name: "N".to_string(),
        bounds: vec![],
        const_ty: Some("usize".to_string()),
    }];
    let mut second = function("second", false, vec![]);
    second.fn_sig.generics = vec![GenericParam {
        name: "N".to_string(),
        bounds: vec![],
        const_ty: Some("u8".to_string()),
    }];
    let mut analyzer = GenericsAnalyzer::new();
    assert_eq!(analyzer.analyze_fn(&first.fn_sig, &FnDeps::NoDeps), Ok(()));
    assert_eq!(analyzer.analyze_fn(&first.fn_sig, &FnDeps::NoDeps), Ok(()));
    assert_eq!(analyzer.analyze_fn(&second.fn_sig, &FnDeps::NoDeps), Err(0));
    assert!(same_opt_text(&None, &None));
    assert!(same_opt_text(&Some("a".to_string()), &Some("a".to_string())));
    assert!(!same_opt_text(&Some("a".to_string()), &Some("b".to_string())));
    assert!(!same_opt_text(&Some("a".to_string()), &None));
    let mut base = strings(&["x"]);
    append_texts(&mut base, &strings(&["y", "x"]));
    assert_eq!(base, strings(&["x", "y", "x"]));
}

#[test]
fn a_written_lifetime_stays_with_its_borrow() {
    let mut shared = param("text", Borrow::Shared, "str");
    shared.lifetime = Some("'a".to_string());
    assert_eq!(shared.render(), "text: &'a str");
    shared.borrow = Borrow::Exclusive;
    assert_eq!(shared.render(), "text: &'a mut str");
    shared.borrow = Borrow::Owned;
    assert_eq!(shared.render(), "text: str");

    let mut source = function(
        "read",
        false,
        vec![param("deps", Borrow::Shared, "T"), param("key", Borrow::Shared, "str")],
    );
    source.fn_sig.inputs[0].lifetime = Some("'d".to_string());
    source.fn_sig.inputs[1].lifetime = Some("'k".to_string());
    let deps = FnDeps::analyze(&source.fn_sig, &None);
    assert_eq!(
        deps,
        FnDeps::Generic { dep_param: "T".to_string(), required_bounds: strings(&["Send"]) }
    );
    let opts = Opts { async_strategy: AsyncStrategy::NoHack, unimock: false, mockall: false };
    let analyzed = TraitFn::analyze(&source, deps, &opts);
    assert_eq!(analyzed.sig().receiver, Some(Borrow::Shared));
    assert_eq!(analyzed.sig().receiver_lifetime, Some("'d".to_string()));
    assert_eq!(analyzed.sig().render(), "fn read(&'d self, key: &'k str)");

    let plain = function("plain", false, vec![]);
    let analyzed = TraitFn::analyze(&plain, FnDeps::NoDeps, &opts);
    assert_eq!(analyzed.sig().receiver_lifetime, None);
    assert_eq!(analyzed.sig().render(), "fn plain(&self)");
}
