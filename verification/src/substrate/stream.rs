//! Generation-tagged stream updates: speculative partials, committed finals,
//! and cancellations.
use vstd::prelude::*;
use crate::substrate::generation::Generation;

verus! {

/// A single update along a generation-tagged stream.
#[derive(Debug, Clone, PartialEq, Eq, Hash)]
pub enum StreamUpdate<T> {
    /// Speculative value; may be revised, committed or abandoned.
    Partial {
        /// Generation this value belongs to.
        generation: Generation,
        /// The speculative value.
        value: T,
    },
    /// Committed value for this generation.
    Final {
        /// Generation this value belongs to.
        generation: Generation,
        /// The committed value.
        value: T,
    },
    /// This generation is abandoned; no `Final` will arrive.
    Cancelled {
        /// The abandoned generation.
        generation: Generation,
    },
}

/// The generation an update belongs to.
pub open spec fn update_generation<T>(u: StreamUpdate<T>) -> Generation {
    match u {
        StreamUpdate::Partial { generation, .. } => generation,
        StreamUpdate::Final { generation, .. } => generation,
        StreamUpdate::Cancelled { generation } => generation,
    }
}

/// The value an update carries, if any.
pub open spec fn update_value<T>(u: StreamUpdate<T>) -> Option<T> {
    match u {
        StreamUpdate::Partial { value, .. } => Some(value),
        StreamUpdate::Final { value, .. } => Some(value),
        StreamUpdate::Cancelled { .. } => None,
    }
}

/// Apply `f` to the carried value, keeping variant and generation.
pub open spec fn update_map<T, U>(u: StreamUpdate<T>, f: spec_fn(T) -> U) -> StreamUpdate<U> {
    match u {
        StreamUpdate::Partial { generation, value } => StreamUpdate::Partial {
            generation,
            value: f(value),
        },
        StreamUpdate::Final { generation, value } => StreamUpdate::Final {
            generation,
            value: f(value),
        },
        StreamUpdate::Cancelled { generation } => StreamUpdate::Cancelled { generation },
    }
}

/// `r` is what mapping `u` by the closure `f` gives: the same variant and
/// generation, and, where `u` carries a value, a result of `f` on it.
pub open spec fn mapped_by<T, U, F: FnOnce(T) -> U>(
    u: StreamUpdate<T>,
    f: F,
    r: StreamUpdate<U>,
) -> bool {
    &&& update_generation(r) == update_generation(u)
    &&& (r is Partial) == (u is Partial)
    &&& (r is Final) == (u is Final)
    &&& (r is Cancelled) == (u is Cancelled)
    &&& update_value(u) matches Some(v) ==> (update_value(r) matches Some(w) && call_ensures(
        f,
        (v,),
        w,
    ))
}

impl<T> StreamUpdate<T> {
    /// The generation this update belongs to, for every variant.
    pub fn generation(&self) -> (r: Generation)
        ensures
            r == update_generation(*self),
    {
        match self {
            StreamUpdate::Partial { generation, .. } => *generation,
            StreamUpdate::Final { generation, .. } => *generation,
            StreamUpdate::Cancelled { generation } => *generation,
        }
    }

    /// `true` for `Partial`.
    pub fn is_partial(&self) -> (r: bool)
        ensures
            r == (*self is Partial),
    {
        matches!(self, StreamUpdate::Partial { .. })
    }

    /// `true` for `Final`.
    pub fn is_final(&self) -> (r: bool)
        ensures
            r == (*self is Final),
    {
        matches!(self, StreamUpdate::Final { .. })
    }

    /// `true` for `Cancelled`.
    pub fn is_cancelled(&self) -> (r: bool)
        ensures
            r == (*self is Cancelled),
    {
        matches!(self, StreamUpdate::Cancelled { .. })
    }

    /// Borrow the value, or `None` for `Cancelled`.
    pub fn value(&self) -> (r: Option<&T>)
        ensures
            r is Some <==> update_value(*self) is Some,
            r matches Some(v) ==> update_value(*self) == Some(*v),
    {
        match self {
            StreamUpdate::Partial { value, .. } => Some(value),
            StreamUpdate::Final { value, .. } => Some(value),
            StreamUpdate::Cancelled { .. } => None,
        }
    }

    /// Consume the update, returning its value or `None` for `Cancelled`.
    pub fn into_value(self) -> (r: Option<T>)
        ensures
            r == update_value(self),
    {
        match self {
            StreamUpdate::Partial { value, .. } => Some(value),
            StreamUpdate::Final { value, .. } => Some(value),
            StreamUpdate::Cancelled { .. } => None,
        }
    }

    /// Transform the value (if any), keeping variant and generation. When
    /// `f` behaves as the function `g`, the result is `update_map(self, g)`.
    pub fn map<U, F: FnOnce(T) -> U>(self, f: F) -> (r: StreamUpdate<U>)
        requires
            update_value(self) matches Some(v) ==> call_requires(f, (v,)),
        ensures
            mapped_by(self, f, r),
            forall|g: spec_fn(T) -> U|
                (forall|x: T, y: U| call_ensures(f, (x,), y) ==> y == g(x)) ==> r == update_map(
                    self,
                    g,
                ),
    {
        match self {
            StreamUpdate::Partial { generation, value } => StreamUpdate::Partial {
                generation,
                value: f(value),
            },
            StreamUpdate::Final { generation, value } => StreamUpdate::Final {
                generation,
                value: f(value),
            },
            StreamUpdate::Cancelled { generation } => StreamUpdate::Cancelled { generation },
        }
    }
}

/// Mapping is a functor: mapping `f` then `g` is mapping their composition,
/// mapping the identity changes nothing, and a cancellation stays a
/// cancellation of the same generation.
pub proof fn lemma_map_is_functor<T, U, V>(
    u: StreamUpdate<T>,
    f: spec_fn(T) -> U,
    g: spec_fn(U) -> V,
)
    ensures
        update_map(update_map(u, f), g) == update_map(u, |x: T| g(f(x))),
        update_map(u, |x: T| x) == u,
        u is Cancelled ==> update_map(u, f) == (StreamUpdate::<U>::Cancelled {
            generation: update_generation(u),
        }),
{
}

/// Exactly one of the three variant predicates holds for any update, and only
/// a cancellation carries no value.
pub proof fn lemma_variants_exclusive<T>(u: StreamUpdate<T>)
    ensures
        (u is Partial) || (u is Final) || (u is Cancelled),
        !((u is Partial) && (u is Final)),
        !((u is Partial) && (u is Cancelled)),
        !((u is Final) && (u is Cancelled)),
        (update_value(u) is None) == (u is Cancelled),
{
}

/// Mapping by the closure `f` and then by `g` gives what mapping once by
/// `h` gives, when the closures compute functions and `h` computes `g` after
/// `f`: both are the update mapped by the composition.
pub proof fn lemma_closure_maps_compose<T, U, W, F: FnOnce(T) -> U, G: FnOnce(U) -> W, H: FnOnce(
    T,
) -> W>(
    u: StreamUpdate<T>,
    f: F,
    g: G,
    h: H,
    sf: spec_fn(T) -> U,
    sg: spec_fn(U) -> W,
    once: StreamUpdate<U>,
    twice: StreamUpdate<W>,
    direct: StreamUpdate<W>,
)
    requires
        forall|x: T, y: U| call_ensures(f, (x,), y) ==> y == sf(x),
        forall|x: U, y: W| call_ensures(g, (x,), y) ==> y == sg(x),
        forall|x: T, y: W| call_ensures(h, (x,), y) ==> y == sg(sf(x)),
        mapped_by(u, f, once),
        mapped_by(once, g, twice),
        mapped_by(u, h, direct),
    ensures
        twice == direct,
        twice == update_map(u, |x: T| sg(sf(x))),
{
}

/// For any closures: mapping an update by `f` and then by `g` gives a
/// possible result of mapping it once by any closure `h` that admits every
/// outcome of `g` after `f`.
pub proof fn lemma_closure_maps_compose_outcomes<T, U, W, F: FnOnce(T) -> U, G: FnOnce(U) -> W, H: FnOnce(
    T,
) -> W>(u: StreamUpdate<T>, f: F, g: G, h: H, once: StreamUpdate<U>, twice: StreamUpdate<W>)
    requires
        forall|x: T, y: U, z: W|
            call_ensures(f, (x,), y) && call_ensures(g, (y,), z) ==> call_ensures(h, (x,), z),
        mapped_by(u, f, once),
        mapped_by(once, g, twice),
    ensures
        mapped_by(u, h, twice),
{
}

/// Mapping by a closure that returns its argument unchanged gives the update
/// back.
pub proof fn lemma_closure_map_identity<T, F: FnOnce(T) -> T>(
    u: StreamUpdate<T>,
    f: F,
    r: StreamUpdate<T>,
)
    requires
        forall|x: T, y: T| call_ensures(f, (x,), y) ==> y == x,
        mapped_by(u, f, r),
    ensures
        r == u,
{
}

} // verus!
