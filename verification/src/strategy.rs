use crate::error::{ErrorView, GenerationError};
use crate::input::{InputFn, InputFnView, fn_views};
use crate::opt::AsyncStrategy;
use crate::text::clone_text;
use vstd::prelude::*;

verus! {

/// How the asynchronous methods of one group are represented.
#[derive(Clone, Copy, Debug, PartialEq, Eq, Structural)]
pub enum AsyncRepresentation {
    /// No function of the group is asynchronous: nothing asynchronous is
    /// emitted.
    NotNeeded,
    /// Asynchronous methods keep their native form, with nothing added.
    Native,
    /// Each asynchronous function gets an associated future type on the
    /// interface and its binding on the implementation.
    AssociatedFuture,
    /// Interface and implementation carry the marker of the outside
    /// framework; the methods keep their native form.
    CompatibilityAttribute,
}

/// The representation for a strategy and for whether any function of the
/// group is asynchronous.
pub open spec fn representation(strategy: AsyncStrategy, any_async: bool) -> AsyncRepresentation {
    if !any_async {
        AsyncRepresentation::NotNeeded
    } else {
        match strategy {
            AsyncStrategy::NoHack => AsyncRepresentation::Native,
            AsyncStrategy::AssociatedFuture => AsyncRepresentation::AssociatedFuture,
            AsyncStrategy::AsyncTrait => AsyncRepresentation::CompatibilityAttribute,
        }
    }
}

/// Decides the representation from the strategy of the group and from
/// whether any of its functions is asynchronous.
pub fn select_representation(strategy: AsyncStrategy, any_async: bool) -> (r: AsyncRepresentation)
    ensures
        r == representation(strategy, any_async),
{
    if !any_async {
        AsyncRepresentation::NotNeeded
    } else {
        match strategy {
            AsyncStrategy::NoHack => AsyncRepresentation::Native,
            AsyncStrategy::AssociatedFuture => AsyncRepresentation::AssociatedFuture,
            AsyncStrategy::AsyncTrait => AsyncRepresentation::CompatibilityAttribute,
        }
    }
}

/// Whether any function of the group is asynchronous.
pub open spec fn any_async(fns: Seq<InputFnView>) -> bool {
    exists|i: int| 0 <= i < fns.len() && (#[trigger] fns[i]).fn_sig.asyncness
}

/// Whether any function of the group is asynchronous.
pub fn has_any_async(fns: &Vec<&InputFn>) -> (r: bool)
    ensures
        r == any_async(fn_views(fns@)),
{
    let mut i: usize = 0;
    while i < fns.len()
        invariant
            i <= fns.len(),
            forall|k: int| 0 <= k < i ==> !(#[trigger] fn_views(fns@)[k]).fn_sig.asyncness,
        decreases fns.len() - i,
    {
        if fns[i].fn_sig.asyncness {
            proof {
                assert(fn_views(fns@)[i as int].fn_sig.asyncness);
            }
            return true;
        }
        i += 1;
    }
    false
}

/// The strategy that a function forces on its group: the one it asks for,
/// where it is asynchronous and asks for another than the native form.
pub open spec fn request(f: InputFnView) -> Option<AsyncStrategy> {
    if f.fn_sig.asyncness {
        match f.async_strategy {
            Some(s) => if s.forces() {
                Some(s)
            } else {
                None
            },
            None => None,
        }
    } else {
        None
    }
}

/// The strategy of the group after its first `upto` functions: the
/// configured one where it forces a representation, else the first that a
/// function forces.
pub open spec fn established(fns: Seq<InputFnView>, configured: AsyncStrategy, upto: int) -> AsyncStrategy
    decreases upto,
{
    if upto <= 0 {
        configured
    } else {
        let before = established(fns, configured, upto - 1);
        if before.forces() {
            before
        } else {
            match request(fns[upto - 1]) {
                Some(s) => s,
                None => before,
            }
        }
    }
}

/// Whether function `i` forces another strategy than the one that the group
/// had before it.
pub open spec fn asks_otherwise(fns: Seq<InputFnView>, configured: AsyncStrategy, i: int) -> bool {
    let before = established(fns, configured, i);
    match request(fns[i]) {
        Some(s) => before.forces() && before != s,
        None => false,
    }
}

/// The first function at or behind `start` that forces another strategy than
/// the group had before it.
pub open spec fn strategy_conflict_from(
    fns: Seq<InputFnView>,
    configured: AsyncStrategy,
    start: int,
) -> Option<int>
    decreases fns.len() - start,
{
    if start < 0 || start >= fns.len() {
        None
    } else if asks_otherwise(fns, configured, start) {
        Some(start)
    } else {
        strategy_conflict_from(fns, configured, start + 1)
    }
}

/// The one strategy of a group, or the first function that asks for another
/// one than the group already has.
pub open spec fn selected_strategy(fns: Seq<InputFnView>, configured: AsyncStrategy) -> Result<
    AsyncStrategy,
    ErrorView,
> {
    match strategy_conflict_from(fns, configured, 0) {
        Some(k) => Err(
            ErrorView::MixedAsyncStrategy {
                fn_index: k,
                function: fns[k].fn_sig.ident,
                requested: request(fns[k])->Some_0,
                established: established(fns, configured, k),
            },
        ),
        None => Ok(established(fns, configured, fns.len() as int)),
    }
}

fn request_of(f: &InputFn) -> (r: Option<AsyncStrategy>)
    ensures
        r == request(f@),
{
    if f.fn_sig.asyncness {
        match f.async_strategy {
            Some(s) => {
                if s.is_forcing() {
                    Some(s)
                } else {
                    None
                }
            },
            None => None,
        }
    } else {
        None
    }
}

/// Settles the one strategy of a group from the configured strategy and
/// from what its asynchronous functions ask for.
pub fn select_strategy(configured: AsyncStrategy, fns: &Vec<&InputFn>) -> (r: Result<
    AsyncStrategy,
    GenerationError,
>)
    ensures
        match r {
            Ok(s) => selected_strategy(fn_views(fns@), configured) == Ok::<AsyncStrategy, ErrorView>(
                s,
            ),
            Err(e) => selected_strategy(fn_views(fns@), configured) == Err::<
                AsyncStrategy,
                ErrorView,
            >(e@),
        },
{
    let mut current = configured;
    let mut i: usize = 0;
    while i < fns.len()
        invariant
            i <= fns.len(),
            current == established(fn_views(fns@), configured, i as int),
            strategy_conflict_from(fn_views(fns@), configured, 0) == strategy_conflict_from(
                fn_views(fns@),
                configured,
                i as int,
            ),
        decreases fns.len() - i,
    {
        proof {
            assert(fn_views(fns@)[i as int] == fns@[i as int]@);
        }
        match request_of(fns[i]) {
            Some(s) => {
                if current.is_forcing() {
                    if current != s {
                        return Err(
                            GenerationError::MixedAsyncStrategy {
                                fn_index: i,
                                function: clone_text(&fns[i].fn_sig.ident),
                                requested: s,
                                established: current,
                            },
                        );
                    }
                } else {
                    current = s;
                }
            },
            None => {},
        }
        i += 1;
    }
    Ok(current)
}

} // verus!
