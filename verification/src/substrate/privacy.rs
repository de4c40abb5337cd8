//! Privacy as a structural property: tiers, redaction markers, and the
//! local-only wrapper.
use vstd::prelude::*;

verus! {

/// Coarse privacy classification, strictly ordered
/// `Public < Private < Sensitive`.
#[derive(Debug, Clone, Copy, PartialEq, Eq, PartialOrd, Ord, Hash, Structural)]
#[non_exhaustive]
pub enum PrivacyTier {
    /// Fine to journal, forward and serialize freely.
    Public,
    /// May be journaled locally, never forwarded without consent.
    Private,
    /// Never leaves the device unless explicitly declassified.
    Sensitive,
}

/// Position of a tier in the strictness order.
pub open spec fn tier_rank(t: PrivacyTier) -> int {
    match t {
        PrivacyTier::Public => 0,
        PrivacyTier::Private => 1,
        PrivacyTier::Sensitive => 2,
    }
}

/// The stricter of two tiers.
pub open spec fn tier_join(a: PrivacyTier, b: PrivacyTier) -> PrivacyTier {
    if tier_rank(a) >= tier_rank(b) {
        a
    } else {
        b
    }
}

/// Journaling is allowed below `Sensitive`.
pub open spec fn tier_permits_journal(t: PrivacyTier) -> bool {
    tier_rank(t) <= 1
}

/// Remote forwarding is allowed only at `Public`.
pub open spec fn tier_permits_remote_forward(t: PrivacyTier) -> bool {
    tier_rank(t) == 0
}

impl PrivacyTier {
    /// `true` for `Public` and `Private`.
    pub fn permits_journal(self) -> (r: bool)
        ensures
            r == tier_permits_journal(self),
    {
        matches!(self, PrivacyTier::Public | PrivacyTier::Private)
    }

    /// `true` only for `Public`.
    pub fn permits_remote_forward(self) -> (r: bool)
        ensures
            r == tier_permits_remote_forward(self),
    {
        matches!(self, PrivacyTier::Public)
    }

    /// `true` for `Public` and `Private`; never for `Sensitive`.
    pub fn permits_serialize(self) -> (r: bool)
        ensures
            r == tier_permits_journal(self),
    {
        matches!(self, PrivacyTier::Public | PrivacyTier::Private)
    }

    /// Compose two tiers, taking the strictest.
    pub fn strictest(self, other: Self) -> (r: Self)
        ensures
            r == tier_join(self, other),
    {
        match (self, other) {
            (PrivacyTier::Sensitive, _) => self,
            (_, PrivacyTier::Sensitive) => other,
            (PrivacyTier::Private, _) => self,
            (_, PrivacyTier::Private) => other,
            _ => self,
        }
    }
}

/// Composing tiers is a join: commutative, associative, idempotent, with
/// `Public` as identity and `Sensitive` as absorbing element, and the result
/// is never less strict than either input.
pub proof fn lemma_strictest_is_join(a: PrivacyTier, b: PrivacyTier, c: PrivacyTier)
    ensures
        tier_join(a, b) == tier_join(b, a),
        tier_join(tier_join(a, b), c) == tier_join(a, tier_join(b, c)),
        tier_join(a, a) == a,
        tier_join(a, PrivacyTier::Public) == a,
        tier_join(a, PrivacyTier::Sensitive) == PrivacyTier::Sensitive,
        tier_rank(tier_join(a, b)) >= tier_rank(a),
        tier_rank(tier_join(a, b)) >= tier_rank(b),
{
}

/// Permissions only shrink as the tier gets stricter, and forwarding is
/// never allowed where journaling is not.
pub proof fn lemma_permissions_ladder(a: PrivacyTier, b: PrivacyTier)
    ensures
        tier_rank(a) <= tier_rank(b) ==> (tier_permits_journal(b) ==> tier_permits_journal(a)),
        tier_rank(a) <= tier_rank(b) ==> (tier_permits_remote_forward(b)
            ==> tier_permits_remote_forward(a)),
        tier_permits_remote_forward(a) ==> tier_permits_journal(a),
        !tier_permits_journal(PrivacyTier::Sensitive),
{
}

/// Why a value was redacted.
#[derive(Debug, Clone, Copy, PartialEq, Eq, Hash, Structural)]
#[non_exhaustive]
pub enum RedactionReason {
    /// The value was local-only and the caller chose to redact it.
    PrivacyTier,
    /// The producer's calibration failed.
    CalibrationFailure,
    /// The value exceeded an explicit size budget.
    SizeBudget,
    /// A test fixture redacted manually.
    TestFixture,
}

/// A redacted `T`: only the tier and the reason remain.
#[derive(Debug, PartialEq, Eq, Hash)]
pub struct Redacted<T> {
    /// What tier was redacted.
    pub tier: PrivacyTier,
    /// Why the redaction happened.
    pub reason: RedactionReason,
    /// Type marker for the redacted value's type; carries no data.
    pub marker: core::marker::PhantomData<T>,
}

impl<T> Clone for Redacted<T> {
    fn clone(&self) -> (r: Self)
        ensures
            r == *self,
    {
        Redacted { tier: self.tier, reason: self.reason, marker: core::marker::PhantomData }
    }
}

impl<T> Copy for Redacted<T> {}

impl<T> Redacted<T> {
    /// Construct a redaction marker.
    pub fn new(tier: PrivacyTier, reason: RedactionReason) -> (r: Self)
        ensures
            r.tier == tier,
            r.reason == reason,
    {
        Redacted { tier, reason, marker: core::marker::PhantomData }
    }
}

/// A value marked as never leaving the device by default. It offers no
/// serialization; to cross a boundary it is redacted or declassified.
#[derive(Debug, Clone, PartialEq, Eq, Hash)]
pub struct LocalOnly<T> {
    inner: T,
    tier: PrivacyTier,
}

impl<T> LocalOnly<T> {
    /// The wrapped value (specification view).
    pub closed spec fn value(&self) -> T {
        self.inner
    }

    /// The privacy tier (specification view).
    pub closed spec fn spec_tier(&self) -> PrivacyTier {
        self.tier
    }

    /// Wrap a value as local-only at the given tier.
    pub fn new(inner: T, tier: PrivacyTier) -> (r: Self)
        ensures
            r.value() == inner,
            r.spec_tier() == tier,
    {
        LocalOnly { inner, tier }
    }

    /// The privacy tier this value carries.
    pub fn tier(&self) -> (r: PrivacyTier)
        ensures
            r == self.spec_tier(),
    {
        self.tier
    }

    /// Borrow the inner value without declassifying it.
    pub fn as_inner(&self) -> (r: &T)
        ensures
            *r == self.value(),
    {
        &self.inner
    }

    /// Take the inner value, dropping the privacy marker.
    pub fn declassify(self) -> (r: T)
        ensures
            r == self.value(),
    {
        self.inner
    }

    /// Replace the value by a redaction marker carrying its tier.
    pub fn redact(self, reason: RedactionReason) -> (r: Redacted<T>)
        ensures
            r.tier == self.spec_tier(),
            r.reason == reason,
    {
        Redacted::new(self.tier, reason)
    }

    /// Map the inner value inside the privacy boundary; the tier is kept.
    pub fn map<U, F: FnOnce(T) -> U>(self, f: F) -> (r: LocalOnly<U>)
        requires
            call_requires(f, (self.value(),)),
        ensures
            r.spec_tier() == self.spec_tier(),
            call_ensures(f, (self.value(),), r.value()),
    {
        let tier = self.tier;
        let inner = f(self.inner);
        LocalOnly { inner, tier }
    }
}

/// Mapping a local-only value by the closure `f` and then by `g` gives what
/// mapping once by `h` gives, when the closures compute functions and `h`
/// computes `g` after `f`: the tier is kept and the value is the
/// composition applied to the original.
pub proof fn lemma_local_maps_compose<T, U, W, F: FnOnce(T) -> U, G: FnOnce(U) -> W, H: FnOnce(
    T,
) -> W>(
    lo: LocalOnly<T>,
    f: F,
    g: G,
    h: H,
    sf: spec_fn(T) -> U,
    sg: spec_fn(U) -> W,
    once: LocalOnly<U>,
    twice: LocalOnly<W>,
    direct: LocalOnly<W>,
)
    requires
        forall|x: T, y: U| call_ensures(f, (x,), y) ==> y == sf(x),
        forall|x: U, y: W| call_ensures(g, (x,), y) ==> y == sg(x),
        forall|x: T, y: W| call_ensures(h, (x,), y) ==> y == sg(sf(x)),
        once.spec_tier() == lo.spec_tier() && call_ensures(f, (lo.value(),), once.value()),
        twice.spec_tier() == once.spec_tier() && call_ensures(g, (once.value(),), twice.value()),
        direct.spec_tier() == lo.spec_tier() && call_ensures(h, (lo.value(),), direct.value()),
    ensures
        twice == direct,
        twice.spec_tier() == lo.spec_tier(),
        twice.value() == sg(sf(lo.value())),
{
}

/// For any closures: mapping a local-only value by `f` and then by `g` gives
/// a possible result of mapping it once by any closure `h` that admits every
/// outcome of `g` after `f`, at the same tier.
pub proof fn lemma_local_maps_compose_outcomes<T, U, W, F: FnOnce(T) -> U, G: FnOnce(U) -> W, H: FnOnce(
    T,
) -> W>(lo: LocalOnly<T>, f: F, g: G, h: H, once: LocalOnly<U>, twice: LocalOnly<W>)
    requires
        forall|x: T, y: U, z: W|
            call_ensures(f, (x,), y) && call_ensures(g, (y,), z) ==> call_ensures(h, (x,), z),
        once.spec_tier() == lo.spec_tier() && call_ensures(f, (lo.value(),), once.value()),
        twice.spec_tier() == once.spec_tier() && call_ensures(g, (once.value(),), twice.value()),
    ensures
        twice.spec_tier() == lo.spec_tier(),
        call_ensures(h, (lo.value(),), twice.value()),
{
}

} // verus!
