use entrait_macros::entrait_fn::{entrait_for_mod, entrait_for_single_fn};
use entrait_macros::error::GenerationError;
use entrait_macros::generics::DependencyClass;
use entrait_macros::input::{
    Borrow, FnParam, GenericParam, InputFn, InputMod, ModItem, ParamPattern, Signature,
};
use entrait_macros::opt::{AsyncStrategy, EntraitFnAttr, Opts, Visibility};
use entrait_macros::output::Marker;
use std::future::Future;
use std::task::{Context, Poll, Waker};

fn attr(name: &str, strategy: AsyncStrategy) -> EntraitFnAttr {
    EntraitFnAttr {
        trait_visibility: Visibility::Inherited,
        trait_ident: name.to_string(),
        context_type: None,
        opts: Opts { async_strategy: strategy, unimock: false, mockall: false },
    }
}

fn generic(name: &str, bounds: &[&str]) -> GenericParam {
    GenericParam {
        name: name.to_string(),
        bounds: bounds.iter().map(|b| b.to_string()).collect(),
        const_ty: None,
    }
}

fn param(name: &str, borrow: Borrow, ty: &str) -> FnParam {
    FnParam {
        pattern: ParamPattern::Ident(name.to_string()),
        borrow,
        lifetime: None,
        ty: ty.to_string(),
    }
}

fn function(
    ident: &str,
    asyncness: bool,
    generics: Vec<GenericParam>,
    inputs: Vec<FnParam>,
    output: Option<&str>,
) -> InputFn {
    InputFn {
        fn_vis: Visibility::Public,
        fn_sig: Signature {
            ident: ident.to_string(),
            asyncness,
            generics,
            inputs,
            output: output.map(|o| o.to_string()),
        },
        fn_body: "{ }".to_string(),
        async_strategy: None,
    }
}

fn scope(fns: Vec<InputFn>) -> InputMod {
    InputMod {
        vis: Visibility::Inherited,
        ident: "scope".to_string(),
        items: fns.into_iter().map(ModItem::PubFn).collect(),
    }
}

struct App(u32);

trait Foo {
    async fn foo(&self) -> u32;
}

impl Foo for App {
    async fn foo(&self) -> u32 {
        foo(self).await
    }
}

trait Bar {
    async fn bar(&self) -> u32;
}

impl Bar for App {
    async fn bar(&self) -> u32 {
        bar(self).await
    }
}

async fn foo<A: Bar>(a: &A) -> u32 {
    a.bar().await
}

async fn bar(app: &App) -> u32 {
    app.0
}

fn run_to_end<F: Future>(future: F) -> F::Output {
    let mut future = Box::pin(future);
    let mut context = Context::from_waker(Waker::noop());
    loop {
        if let Poll::Ready(value) = future.as_mut().poll(&mut context) {
            return value;
        }
    }
}

#[test]
fn test() {
    let for_app = |name: &str, strategy: AsyncStrategy| {
        let mut config = attr(name, strategy);
        config.context_type = Some("App".to_string());
        config
    };
    let foo_decl = || {
        function(
            "foo",
            true,
            vec![generic("A", &["Bar"])],
            vec![param("a", Borrow::Shared, "A")],
            Some("u32"),
        )
    };
    let bar_decl =
        || function("bar", true, vec![], vec![param("app", Borrow::Shared, "App")], Some("u32"));
    let foo_out =
        entrait_for_single_fn(&for_app("Foo", AsyncStrategy::AsyncTrait), foo_decl()).unwrap();
    let bar_out =
        entrait_for_single_fn(&for_app("Bar", AsyncStrategy::AsyncTrait), bar_decl()).unwrap();

    assert_eq!(foo_out.trait_def.markers, vec![Marker::EntraitForTrait, Marker::AsyncTrait]);
    assert_eq!(foo_out.impl_block.markers, vec![Marker::AsyncTrait]);
    assert!(foo_out.impl_block.params.is_empty());
    assert_eq!(foo_out.impl_block.self_ty, "App");
    assert_eq!(foo_out.impl_block.items.len(), 1);
    assert_eq!(foo_out.impl_block.items[0].sig.ident, "foo");
    assert_eq!(foo_out.impl_block.items[0].sig.receiver, Some(Borrow::Shared));
    assert_eq!(foo_out.impl_block.items[0].call.render(), "foo(self).await");
    assert_eq!(
        foo_out.trait_def.render(),
        "#[::entrait::entrait] #[::async_trait::async_trait] \
         trait Foo { async fn foo(&self) -> u32; }"
    );
    assert_eq!(
        foo_out.impl_block.render(),
        "#[::async_trait::async_trait] impl Foo for App \
         { async fn foo(&self) -> u32 { foo(self).await } }"
    );
    assert!(foo_out.reexport.is_none());

    assert_eq!(bar_out.trait_def.markers, vec![Marker::EntraitForTrait, Marker::AsyncTrait]);
    assert_eq!(bar_out.impl_block.self_ty, "App");
    assert!(bar_out.impl_block.params.is_empty());
    assert_eq!(
        bar_out.trait_def.render(),
        "#[::entrait::entrait] #[::async_trait::async_trait] \
         trait Bar { async fn bar(&self) -> u32; }"
    );
    assert_eq!(
        bar_out.impl_block.render(),
        "#[::async_trait::async_trait] impl Bar for App \
         { async fn bar(&self) -> u32 { bar(self).await } }"
    );

    // Without the marker for asynchronous methods, which no test can
    // expand, the declarations are the ones written out at the top of this
    // file, token for token.
    let native_foo =
        entrait_for_single_fn(&for_app("Foo", AsyncStrategy::NoHack), foo_decl()).unwrap();
    let native_bar =
        entrait_for_single_fn(&for_app("Bar", AsyncStrategy::NoHack), bar_decl()).unwrap();
    assert_eq!(
        native_foo.trait_def.render(),
        "#[::entrait::entrait] trait Foo { async fn foo(&self) -> u32; }"
    );
    assert_eq!(
        native_foo.impl_block.render(),
        "impl Foo for App { async fn foo(&self) -> u32 { foo(self).await } }"
    );
    assert_eq!(
        native_bar.trait_def.render(),
        "#[::entrait::entrait] trait Bar { async fn bar(&self) -> u32; }"
    );
    assert_eq!(
        native_bar.impl_block.render(),
        "impl Bar for App { async fn bar(&self) -> u32 { bar(self).await } }"
    );
    assert_eq!(
        foo_out.impl_block.render(),
        format!("#[::async_trait::async_trait] {}", native_foo.impl_block.render())
    );

    let app = App(42);

    let result = run_to_end(app.foo());

    assert_eq!(42, result);
}

#[test]
fn generic_bound_conflict_is_rejected() {
    let send_it = function(
        "send_it",
        false,
        vec![generic("D", &[]), generic("T", &["Send"])],
        vec![param("deps", Borrow::Shared, "D"), param("value", Borrow::Owned, "T")],
        None,
    );
    let share_it = function(
        "share_it",
        false,
        vec![generic("D", &[]), generic("T", &["Sync"])],
        vec![param("deps", Borrow::Shared, "D"), param("value", Borrow::Owned, "T")],
        None,
    );
    let out = entrait_for_mod(&attr("Carry", AsyncStrategy::NoHack), scope(vec![send_it, share_it]));
    assert_eq!(
        out,
        Err(GenerationError::ConflictingGenericBounds {
            fn_index: 1,
            function: "share_it".to_string(),
            parameter: "T".to_string(),
        })
    );
}

#[test]
fn unbounded_and_bounded_declarations_conflict() {
    let first = function("first", false, vec![generic("T", &[])], vec![], None);
    let second = function("second", false, vec![generic("T", &["Send"])], vec![], None);
    let out = entrait_for_mod(&attr("Pair", AsyncStrategy::NoHack), scope(vec![first, second]));
    assert_eq!(
        out,
        Err(GenerationError::ConflictingGenericBounds {
            fn_index: 1,
            function: "second".to_string(),
            parameter: "T".to_string(),
        })
    );
}

#[test]
fn equal_bounds_are_shared_in_first_seen_order() {
    let first = function(
        "first",
        false,
        vec![generic("T", &["Send", "Sync"]), generic("U", &[])],
        vec![],
        None,
    );
    let second = function(
        "second",
        false,
        vec![generic("V", &["Clone"]), generic("T", &["Sync", "Send"])],
        vec![],
        None,
    );
    let out =
        entrait_for_mod(&attr("Pair", AsyncStrategy::NoHack), scope(vec![first, second])).unwrap();
    assert_eq!(
        out.trait_def.generics,
        vec![generic("T", &["Send", "Sync"]), generic("U", &[]), generic("V", &["Clone"])]
    );
    assert_eq!(out.impl_block.args, vec!["T".to_string(), "U".to_string(), "V".to_string()]);
}

#[test]
fn generation_is_deterministic() {
    let make = || {
        scope(vec![
            function(
                "load",
                true,
                vec![generic("D", &["Store"]), generic("K", &["Hash"])],
                vec![param("deps", Borrow::Shared, "D"), param("key", Borrow::Owned, "K")],
                Some("Item"),
            ),
            function("plain", false, vec![], vec![], None),
        ])
    };
    let config = attr("Loader", AsyncStrategy::AssociatedFuture);
    let first = entrait_for_mod(&config, make()).unwrap();
    let second = entrait_for_mod(&config, make()).unwrap();
    assert_eq!(first, second);
    assert_eq!(first.trait_def.render(), second.trait_def.render());
    assert_eq!(first.impl_block.render(), second.impl_block.render());
    assert_eq!(
        first.reexport.as_ref().unwrap().render(),
        second.reexport.as_ref().unwrap().render()
    );
}

#[test]
fn methods_keep_declaration_order() {
    let names = ["zeta", "alpha", "mid"];
    let fns = names.iter().map(|n| function(n, false, vec![], vec![], None)).collect();
    let out = entrait_for_mod(&attr("Ordered", AsyncStrategy::NoHack), scope(fns)).unwrap();
    let in_trait: Vec<&str> = out.trait_def.items.iter().map(|i| i.sig.ident.as_str()).collect();
    let in_impl: Vec<&str> = out.impl_block.items.iter().map(|i| i.sig.ident.as_str()).collect();
    let called: Vec<&str> = out.impl_block.items.iter().map(|i| i.call.callee.as_str()).collect();
    assert_eq!(in_trait, names);
    assert_eq!(in_impl, names);
    assert_eq!(called, names);
}

#[test]
fn items_that_are_no_public_functions_are_passed_over() {
    let input = InputMod {
        vis: Visibility::Public,
        ident: "scope".to_string(),
        items: vec![
            ModItem::Unknown("struct Hidden;".to_string()),
            ModItem::PubFn(function("only", false, vec![], vec![], None)),
            ModItem::Unknown("fn private() {}".to_string()),
        ],
    };
    assert!(input.items[0].filter_pub_fn().is_none());
    assert_eq!(input.items[1].filter_pub_fn().unwrap().fn_sig.ident, "only");
    assert_eq!(input.pub_fns().len(), 1);
    let out = entrait_for_mod(&attr("Only", AsyncStrategy::NoHack), input).unwrap();
    assert_eq!(out.trait_def.items.len(), 1);
    assert_eq!(out.trait_def.items[0].sig.ident, "only");
}

#[test]
fn a_scope_without_functions_gives_an_empty_interface() {
    let out = entrait_for_mod(&attr("Nothing", AsyncStrategy::AsyncTrait), scope(vec![])).unwrap();
    assert!(out.trait_def.items.is_empty());
    assert!(out.trait_def.markers.is_empty());
    assert_eq!(out.trait_def.render(), "pub(super) trait Nothing { }");
    assert_eq!(out.impl_block.render(), "impl<EntraitT> Nothing for EntraitT { }");
    assert_eq!(out.reexport.unwrap().render(), "pub(super) use scope::Nothing;");
}

#[test]
fn concrete_and_generic_functions_conflict() {
    let concrete = function("first", false, vec![], vec![param("app", Borrow::Shared, "App")], None);
    let generic_fn = function(
        "second",
        false,
        vec![generic("D", &[])],
        vec![param("deps", Borrow::Shared, "D")],
        None,
    );
    let out =
        entrait_for_mod(&attr("Mixed", AsyncStrategy::NoHack), scope(vec![concrete, generic_fn]));
    assert_eq!(
        out,
        Err(GenerationError::ConflictingDependencyMode {
            fn_index: 1,
            function: "second".to_string(),
            found: DependencyClass::Generic,
            expected: DependencyClass::Concrete,
        })
    );
}

#[test]
fn two_context_types_conflict() {
    let first = function("first", false, vec![], vec![param("app", Borrow::Shared, "App")], None);
    let second = function("second", false, vec![], vec![param("app", Borrow::Shared, "App")], None);
    let third = function("third", false, vec![], vec![param("db", Borrow::Shared, "Db")], None);
    let out =
        entrait_for_mod(&attr("Mixed", AsyncStrategy::NoHack), scope(vec![first, second, third]));
    assert_eq!(
        out,
        Err(GenerationError::ConflictingDependencyMode {
            fn_index: 2,
            function: "third".to_string(),
            found: DependencyClass::Concrete,
            expected: DependencyClass::Concrete,
        })
    );
}

#[test]
fn a_function_without_context_does_not_go_with_a_context_type() {
    let first = function("first", false, vec![], vec![], None);
    let second = function("second", false, vec![], vec![param("app", Borrow::Shared, "App")], None);
    let out = entrait_for_mod(&attr("Mixed", AsyncStrategy::NoHack), scope(vec![first, second]));
    assert_eq!(
        out,
        Err(GenerationError::ConflictingDependencyMode {
            fn_index: 1,
            function: "second".to_string(),
            found: DependencyClass::Concrete,
            expected: DependencyClass::NoDeps,
        })
    );
}

#[test]
fn a_configured_context_type_is_what_the_interface_is_implemented_for() {
    let mut config = attr("Forced", AsyncStrategy::NoHack);
    config.context_type = Some("App".to_string());
    let lookup = || {
        function(
            "lookup",
            false,
            vec![generic("D", &["Store"]), generic("K", &[])],
            vec![param("deps", Borrow::Exclusive, "D"), param("key", Borrow::Owned, "K")],
            None,
        )
    };
    let other = || function("other", false, vec![], vec![param("n", Borrow::Owned, "u32")], None);
    let fitting =
        || function("fitting", false, vec![], vec![param("app", Borrow::Shared, "App")], None);
    let plain = || function("plain", false, vec![], vec![], None);

    let out = entrait_for_single_fn(&config, lookup()).unwrap();
    assert_eq!(out.impl_block.self_ty, "App");
    assert_eq!(out.impl_block.params, vec![generic("K", &[])]);
    assert_eq!(out.trait_def.generics, vec![generic("K", &[])]);
    assert_eq!(out.trait_def.markers, vec![Marker::EntraitForTrait]);
    assert_eq!(
        out.impl_block.render(),
        "impl<K> Forced<K> for App { fn lookup(&mut self, key: K) { lookup(self, key) } }"
    );

    let out = entrait_for_single_fn(&config, other()).unwrap();
    assert_eq!(
        out.impl_block.render(),
        "impl Forced for App { fn other(&self, n: u32) { other(n) } }"
    );

    let out = entrait_for_single_fn(&config, fitting()).unwrap();
    assert_eq!(
        out.impl_block.render(),
        "impl Forced for App { fn fitting(&self) { fitting(self) } }"
    );

    let out = entrait_for_single_fn(&config, plain()).unwrap();
    assert_eq!(out.impl_block.render(), "impl Forced for App { fn plain(&self) { plain() } }");

    let out = entrait_for_mod(&config, scope(vec![fitting(), lookup()])).unwrap();
    assert_eq!(out.impl_block.self_ty, "App");
    assert!(out.impl_block.items[0].call.pass_self);
    assert!(out.impl_block.items[1].call.pass_self);

    let out = entrait_for_mod(&config, scope(vec![plain(), other()])).unwrap();
    assert_eq!(out.impl_block.self_ty, "App");
    assert!(!out.impl_block.items[0].call.pass_self);
    assert!(!out.impl_block.items[1].call.pass_self);

    assert_eq!(
        entrait_for_mod(&config, scope(vec![plain(), lookup()])),
        Err(GenerationError::ConflictingDependencyMode {
            fn_index: 1,
            function: "lookup".to_string(),
            found: DependencyClass::Concrete,
            expected: DependencyClass::NoDeps,
        })
    );
    assert_eq!(
        entrait_for_mod(&config, scope(vec![fitting(), other()])),
        Err(GenerationError::ConflictingDependencyMode {
            fn_index: 1,
            function: "other".to_string(),
            found: DependencyClass::NoDeps,
            expected: DependencyClass::Concrete,
        })
    );
}

#[test]
fn functions_without_context_and_generic_ones_combine() {
    let plain = function("plain", false, vec![], vec![], Some("u8"));
    let first = function(
        "first",
        false,
        vec![generic("D", &["Clock", "Log"])],
        vec![param("deps", Borrow::Shared, "D")],
        None,
    );
    let second = function(
        "second",
        false,
        vec![generic("E", &["Log", "Store"])],
        vec![param("env", Borrow::Exclusive, "E")],
        None,
    );
    let out = entrait_for_mod(&attr("All", AsyncStrategy::NoHack), scope(vec![plain, first, second]))
        .unwrap();
    assert_eq!(out.impl_block.self_ty, "D");
    assert_eq!(out.impl_block.params, vec![generic("D", &["Clock", "Log", "Store"])]);
    assert!(out.trait_def.generics.is_empty());
    assert_eq!(out.trait_def.items[0].sig.receiver, Some(Borrow::Shared));
    assert_eq!(out.trait_def.items[1].sig.receiver, Some(Borrow::Shared));
    assert_eq!(out.trait_def.items[2].sig.receiver, Some(Borrow::Exclusive));
    assert!(!out.impl_block.items[0].call.pass_self);
    assert!(out.impl_block.items[1].call.pass_self);
}

#[test]
fn the_call_forwards_the_context_and_the_parameters_in_order() {
    let with_context = function(
        "store",
        false,
        vec![],
        vec![
            param("app", Borrow::Shared, "App"),
            param("key", Borrow::Owned, "u32"),
            param("value", Borrow::Shared, "str"),
        ],
        Some("bool"),
    );
    let out = entrait_for_single_fn(&attr("Store", AsyncStrategy::NoHack), with_context).unwrap();
    let item = &out.impl_block.items[0];
    assert_eq!(item.call.callee, "store");
    assert!(item.call.pass_self);
    assert_eq!(item.call.arguments, vec!["key".to_string(), "value".to_string()]);
    assert!(!item.call.dot_await);
    assert_eq!(item.call.render(), "store(self, key, value)");
    assert_eq!(
        item.render(),
        "fn store(&self, key: u32, value: &str) -> bool { store(self, key, value) }"
    );

    let without = function("now", false, vec![], vec![], Some("u64"));
    let out = entrait_for_single_fn(&attr("Now", AsyncStrategy::NoHack), without).unwrap();
    let item = &out.impl_block.items[0];
    assert!(!item.call.pass_self);
    assert!(item.call.arguments.is_empty());
    assert_eq!(item.sig.receiver, Some(Borrow::Shared));
    assert_eq!(item.render(), "fn now(&self) -> u64 { now() }");
}

#[test]
fn an_inherited_visibility_is_widened_for_a_scope_only() {
    let one = || function("one", false, vec![], vec![], None);
    let config = attr("Seen", AsyncStrategy::NoHack);
    let scoped = entrait_for_mod(&config, scope(vec![one()])).unwrap();
    assert_eq!(scoped.trait_def.visibility, Visibility::Super);
    assert_eq!(scoped.reexport.as_ref().unwrap().visibility, Visibility::Super);
    assert_eq!(scoped.reexport.as_ref().unwrap().module, "scope");
    assert_eq!(scoped.reexport.as_ref().unwrap().ident, "Seen");

    let single = entrait_for_single_fn(&config, one()).unwrap();
    assert_eq!(single.trait_def.visibility, Visibility::Inherited);
    assert_eq!(single.reexport, None);

    for explicit in [
        Visibility::Public,
        Visibility::Crate,
        Visibility::Super,
        Visibility::Restricted("crate::api".to_string()),
    ] {
        let mut config = attr("Seen", AsyncStrategy::NoHack);
        config.trait_visibility = explicit.clone();
        let scoped = entrait_for_mod(&config, scope(vec![one()])).unwrap();
        assert_eq!(scoped.trait_def.visibility, explicit);
        assert_eq!(scoped.reexport.unwrap().visibility, explicit);
        let single = entrait_for_single_fn(&config, one()).unwrap();
        assert_eq!(single.trait_def.visibility, explicit);
    }
}

#[test]
fn an_asynchronous_function_has_exactly_one_representation() {
    let make = || function("poll", true, vec![], vec![param("app", Borrow::Shared, "App")], Some("u8"));

    let native = entrait_for_single_fn(&attr("Poll", AsyncStrategy::NoHack), make()).unwrap();
    assert!(native.trait_def.items[0].sig.asyncness);
    assert!(native.trait_def.items[0].associated_fut_decl.is_none());
    assert!(native.impl_block.items[0].associated_fut_impl.is_none());
    assert!(!native.trait_def.markers.contains(&Marker::AsyncTrait));
    assert!(native.impl_block.markers.is_empty());
    assert!(native.impl_block.items[0].call.dot_await);

    let marked = entrait_for_single_fn(&attr("Poll", AsyncStrategy::AsyncTrait), make()).unwrap();
    assert!(marked.trait_def.items[0].sig.asyncness);
    assert!(marked.trait_def.items[0].associated_fut_decl.is_none());
    assert!(marked.impl_block.items[0].associated_fut_impl.is_none());
    assert!(marked.trait_def.markers.contains(&Marker::AsyncTrait));
    assert_eq!(marked.impl_block.markers, vec![Marker::AsyncTrait]);
    assert!(marked.impl_block.items[0].call.dot_await);

    let future =
        entrait_for_single_fn(&attr("Poll", AsyncStrategy::AssociatedFuture), make()).unwrap();
    assert!(!future.trait_def.items[0].sig.asyncness);
    let decl = future.trait_def.items[0].associated_fut_decl.as_ref().unwrap();
    let bound = future.impl_block.items[0].associated_fut_impl.as_ref().unwrap();
    assert_eq!(decl.ident, "Fut__poll");
    assert_eq!(decl.output, Some("u8".to_string()));
    assert_eq!(decl, bound);
    assert!(!future.trait_def.markers.contains(&Marker::AsyncTrait));
    assert!(future.impl_block.markers.is_empty());
    assert!(!future.impl_block.items[0].call.dot_await);
    assert_eq!(
        future.trait_def.render(),
        "#[::entrait::entrait] trait Poll { \
         type Fut__poll: ::core::future::Future<Output = u8>; \
         fn poll(&self) -> Self::Fut__poll; }"
    );
    assert_eq!(
        future.impl_block.render(),
        "impl Poll for App { \
         type Fut__poll = impl ::core::future::Future<Output = u8>; \
         fn poll(&self) -> Self::Fut__poll { poll(self) } }"
    );
}

#[test]
fn a_strategy_does_nothing_without_an_asynchronous_function() {
    for strategy in [AsyncStrategy::NoHack, AsyncStrategy::AssociatedFuture, AsyncStrategy::AsyncTrait]
    {
        let plain = function("plain", false, vec![], vec![], None);
        let out = entrait_for_single_fn(&attr("Plain", strategy), plain).unwrap();
        assert!(out.trait_def.markers.is_empty());
        assert!(out.impl_block.markers.is_empty());
        assert!(out.trait_def.items[0].associated_fut_decl.is_none());
        assert!(out.impl_block.items[0].associated_fut_impl.is_none());
        assert!(!out.trait_def.items[0].sig.asyncness);
        assert!(!out.impl_block.items[0].call.dot_await);
        assert_eq!(out.trait_def.render(), "trait Plain { fn plain(&self); }");
    }
}

#[test]
fn only_the_asynchronous_functions_of_a_group_get_a_future() {
    let waits = function("waits", true, vec![], vec![], None);
    let plain = function("plain", false, vec![], vec![], None);
    let out =
        entrait_for_mod(&attr("Both", AsyncStrategy::AssociatedFuture), scope(vec![waits, plain]))
            .unwrap();
    assert!(out.trait_def.items[0].associated_fut_decl.is_some());
    assert!(out.trait_def.items[1].associated_fut_decl.is_none());
    assert_eq!(
        out.trait_def.items[0].associated_fut_decl.as_ref().unwrap().render_decl(),
        "type Fut__waits: ::core::future::Future<Output = ()>; "
    );
}

#[test]
fn functions_that_ask_for_two_strategies_are_rejected() {
    let mut first = function("first", true, vec![], vec![], None);
    first.async_strategy = Some(AsyncStrategy::AssociatedFuture);
    let mut second = function("second", true, vec![], vec![], None);
    second.async_strategy = Some(AsyncStrategy::AsyncTrait);
    let out = entrait_for_mod(&attr("Two", AsyncStrategy::NoHack), scope(vec![first, second]));
    assert_eq!(
        out,
        Err(GenerationError::MixedAsyncStrategy {
            fn_index: 1,
            function: "second".to_string(),
            requested: AsyncStrategy::AsyncTrait,
            established: AsyncStrategy::AssociatedFuture,
        })
    );
}

#[test]
fn a_function_that_asks_against_the_configuration_is_rejected() {
    let mut only = function("only", true, vec![], vec![], None);
    only.async_strategy = Some(AsyncStrategy::AssociatedFuture);
    let out = entrait_for_single_fn(&attr("One", AsyncStrategy::AsyncTrait), only);
    assert_eq!(
        out,
        Err(GenerationError::MixedAsyncStrategy {
            fn_index: 0,
            function: "only".to_string(),
            requested: AsyncStrategy::AssociatedFuture,
            established: AsyncStrategy::AsyncTrait,
        })
    );
}

#[test]
fn what_one_function_asks_for_holds_for_its_siblings() {
    let quiet = function("quiet", true, vec![], vec![], None);
    let mut loud = function("loud", true, vec![], vec![], None);
    loud.async_strategy = Some(AsyncStrategy::AssociatedFuture);
    let mut native = function("native", true, vec![], vec![], None);
    native.async_strategy = Some(AsyncStrategy::NoHack);
    let mut idle = function("idle", false, vec![], vec![], None);
    idle.async_strategy = Some(AsyncStrategy::AsyncTrait);
    let out = entrait_for_mod(
        &attr("Group", AsyncStrategy::NoHack),
        scope(vec![quiet, loud, native, idle]),
    )
    .unwrap();
    assert!(out.trait_def.items[0].associated_fut_decl.is_some());
    assert!(out.trait_def.items[1].associated_fut_decl.is_some());
    assert!(out.trait_def.items[2].associated_fut_decl.is_some());
    assert!(out.trait_def.items[3].associated_fut_decl.is_none());
    assert!(out.trait_def.markers.is_empty());
}

#[test]
fn a_forwarded_parameter_without_a_simple_name_is_rejected() {
    let mut broken = function(
        "broken",
        false,
        vec![],
        vec![
            param("app", Borrow::Shared, "App"),
            param("fine", Borrow::Owned, "u8"),
            param("pair", Borrow::Owned, "(u8, u8)"),
        ],
        None,
    );
    broken.fn_sig.inputs[2].pattern = ParamPattern::Destructured("(a, b)".to_string());
    let fine = function("fine", false, vec![], vec![param("app", Borrow::Shared, "App")], None);
    let out = entrait_for_mod(&attr("Broken", AsyncStrategy::NoHack), scope(vec![fine, broken]));
    assert_eq!(
        out,
        Err(GenerationError::MalformedParameterPattern {
            fn_index: 1,
            function: "broken".to_string(),
            param_index: 2,
        })
    );
}

#[test]
fn the_context_parameter_needs_no_simple_name() {
    let mut taken = function(
        "taken",
        false,
        vec![],
        vec![param("app", Borrow::Shared, "App"), param("n", Borrow::Owned, "u8")],
        None,
    );
    taken.fn_sig.inputs[0].pattern = ParamPattern::Destructured("App(inner)".to_string());
    let out = entrait_for_single_fn(&attr("Taken", AsyncStrategy::NoHack), taken).unwrap();
    assert_eq!(out.impl_block.items[0].render(), "fn taken(&self, n: u8) { taken(self, n) }");
}

#[test]
fn conflicting_dependencies_are_reported_before_anything_else() {
    let mut first = function(
        "first",
        true,
        vec![generic("T", &["Send"])],
        vec![param("app", Borrow::Shared, "App"), param("x", Borrow::Owned, "T")],
        None,
    );
    first.fn_sig.inputs[1].pattern = ParamPattern::Destructured("[x]".to_string());
    first.async_strategy = Some(AsyncStrategy::AssociatedFuture);
    let mut second = function(
        "second",
        true,
        vec![generic("T", &["Sync"])],
        vec![param("db", Borrow::Shared, "Db")],
        None,
    );
    second.async_strategy = Some(AsyncStrategy::AsyncTrait);
    let config = attr("Many", AsyncStrategy::NoHack);

    let out = entrait_for_mod(&config, scope(vec![first.clone_for_test(), second.clone_for_test()]));
    assert!(matches!(out, Err(GenerationError::ConflictingDependencyMode { fn_index: 1, .. })));

    second.fn_sig.inputs[0].ty = "App".to_string();
    let out = entrait_for_mod(&config, scope(vec![first.clone_for_test(), second.clone_for_test()]));
    assert!(matches!(
        out,
        Err(GenerationError::MalformedParameterPattern { fn_index: 0, param_index: 1, .. })
    ));

    first.fn_sig.inputs[1].pattern = ParamPattern::Ident("x".to_string());
    let out = entrait_for_mod(&config, scope(vec![first.clone_for_test(), second.clone_for_test()]));
    assert!(matches!(out, Err(GenerationError::ConflictingGenericBounds { fn_index: 1, .. })));

    second.fn_sig.generics[0].bounds = vec!["Send".to_string()];
    let out = entrait_for_mod(&config, scope(vec![first.clone_for_test(), second.clone_for_test()]));
    assert!(matches!(out, Err(GenerationError::MixedAsyncStrategy { fn_index: 1, .. })));

    second.async_strategy = None;
    let out = entrait_for_mod(&config, scope(vec![first, second]));
    assert!(out.is_ok());
}

trait CloneForTest {
    fn clone_for_test(&self) -> Self;
}

impl CloneForTest for InputFn {
    fn clone_for_test(&self) -> InputFn {
        InputFn {
            fn_vis: self.fn_vis.clone(),
            fn_sig: Signature {
                ident: self.fn_sig.ident.clone(),
                asyncness: self.fn_sig.asyncness,
                generics: self.fn_sig.generics.clone(),
                inputs: self.fn_sig.inputs.clone(),
                output: self.fn_sig.output.clone(),
            },
            fn_body: self.fn_body.clone(),
            async_strategy: self.async_strategy,
        }
    }
}

#[test]
fn the_dependency_parameter_gets_a_name_of_its_own() {
    let first = function(
        "first",
        false,
        vec![generic("T", &["Clock"])],
        vec![param("deps", Borrow::Shared, "T")],
        None,
    );
    let second = function(
        "second",
        false,
        vec![generic("D", &["Log"]), generic("T", &["Clone"]), generic("T0", &[])],
        vec![param("deps", Borrow::Shared, "D"), param("value", Borrow::Owned, "T")],
        None,
    );
    let out =
        entrait_for_mod(&attr("Named", AsyncStrategy::NoHack), scope(vec![first, second])).unwrap();
    assert_eq!(out.trait_def.generics, vec![generic("T", &["Clone"]), generic("T0", &[])]);
    assert_eq!(out.impl_block.self_ty, "T00");
    assert_eq!(
        out.impl_block.params,
        vec![generic("T00", &["Clock", "Log"]), generic("T", &["Clone"]), generic("T0", &[])]
    );
    assert_eq!(
        out.impl_block.render(),
        "impl<T00, T, T0> Named<T, T0> for T00 where T00: Clock + Log, T: Clone { \
         fn first(&self) { first(self) } \
         fn second(&self, value: T) { second(self, value) } }"
    );
}

#[test]
fn the_place_of_the_naming_function_is_the_suffix() {
    let plain = function("plain", false, vec![generic("D", &[])], vec![], None);
    let second = function(
        "second",
        false,
        vec![generic("D", &[])],
        vec![param("deps", Borrow::Shared, "D")],
        None,
    );
    let out =
        entrait_for_mod(&attr("Late", AsyncStrategy::NoHack), scope(vec![plain, second])).unwrap();
    assert_eq!(out.trait_def.generics, vec![generic("D", &[])]);
    assert_eq!(out.impl_block.self_ty, "D1");
}
