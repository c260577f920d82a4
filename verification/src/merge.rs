//! The run-time rules the generated code follows: how an override value
//! lands on a configured field, and how a builder holds its override until
//! the config is built. Generated code calls these functions.

use vstd::prelude::*;

verus! {

/// The value a field holds after an optional override value is applied.
pub open spec fn applied<T>(current: T, incoming: Option<T>) -> T {
    match incoming {
        Some(v) => v,
        None => current,
    }
}

/// Applies an override value, if there is one: it replaces the current value.
pub fn apply<T>(slot: &mut T, incoming: Option<T>)
    ensures
        *final(slot) == applied(*old(slot), incoming),
{
    match incoming {
        Some(v) => {
            *slot = v;
        },
        None => {},
    }
}

/// Applies an override value to a field that may also be reset: a reset
/// restores the library default and takes precedence over a value; without
/// a reset the value, if any, replaces the current one.
pub fn apply_or_reset<T, F: FnOnce() -> T>(slot: &mut T, reset: bool, incoming: Option<T>, default: F)
    requires
        reset ==> default.requires(()),
    ensures
        reset ==> default.ensures((), *final(slot)),
        !reset ==> *final(slot) == applied(*old(slot), incoming),
{
    if reset {
        *slot = default();
    } else {
        apply(slot, incoming);
    }
}

/// Sets a field whose override value is always present.
pub fn replace<T>(slot: &mut T, incoming: T)
    ensures
        *final(slot) == incoming,
{
    *slot = incoming;
}

/// A builder's state: the config assembled so far and the override to apply
/// when it is built.
#[derive(Debug, Clone)]
pub struct Staged<C, O> {
    pub inner: C,
    pub override_conf: Option<O>,
}

impl<C, O> Staged<C, O> {
    /// A state with `inner` and the given override.
    pub fn new(inner: C, override_conf: Option<O>) -> (r: Self)
        ensures
            r.inner == inner,
            r.override_conf == override_conf,
    {
        Staged { inner, override_conf }
    }

    /// Supplies the override; it replaces any override supplied before.
    pub fn with_override(self, o: O) -> (r: Self)
        ensures
            r.inner == self.inner,
            r.override_conf == Some(o),
    {
        Staged { inner: self.inner, override_conf: Some(o) }
    }

    /// Drops the override.
    pub fn clear_override(self) -> (r: Self)
        ensures
            r.inner == self.inner,
            r.override_conf is None,
    {
        Staged { inner: self.inner, override_conf: None }
    }

    /// The config: `inner` as assembled, with the override merged in as the
    /// last step when there is one.
    pub fn build<F: FnOnce(C, O) -> C>(self, merge: F) -> (r: C)
        requires
            self.override_conf matches Some(o) ==> merge.requires((self.inner, o)),
        ensures
            match self.override_conf {
                Some(o) => merge.ensures((self.inner, o), r),
                None => r == self.inner,
            },
    {
        match self.override_conf {
            Some(o) => merge(self.inner, o),
            None => self.inner,
        }
    }
}

/// A state whose config was changed by `setter`, as a builder setter does.
pub open spec fn set_with<C, O>(s: Staged<C, O>, setter: spec_fn(C) -> C) -> Staged<C, O> {
    Staged { inner: setter(s.inner), override_conf: s.override_conf }
}

/// A state with its override replaced by `o`: `Some` for `with_override`,
/// `None` for `clear_override`.
pub open spec fn set_override<C, O>(s: Staged<C, O>, o: Option<O>) -> Staged<C, O> {
    Staged { inner: s.inner, override_conf: o }
}

/// What `build` gives for a state, `merge` being how the override is
/// merged into the config (the config's `+`).
pub open spec fn built<C, O>(s: Staged<C, O>, merge: spec_fn(C, O) -> C) -> C {
    match s.override_conf {
        Some(o) => merge(s.inner, o),
        None => s.inner,
    }
}

/// The order in which setters and `with_override` are chained does not
/// matter: either way the build is the configured values with the override
/// merged in last.
pub proof fn law_setters_commute_with_override<C, O>(
    s: Staged<C, O>,
    setter: spec_fn(C) -> C,
    o: O,
    merge: spec_fn(C, O) -> C,
)
    ensures
        built(set_override(set_with(s, setter), Some(o)), merge) == built(
            set_with(set_override(s, Some(o)), setter),
            merge,
        ),
        built(set_with(set_override(s, Some(o)), setter), merge) == merge(
            built(set_override(set_with(s, setter), None), merge),
            o,
        ),
{
}

/// Only the last override supplied counts, and clearing it gives the build
/// of the configured values alone.
pub proof fn law_last_override_wins<C, O>(s: Staged<C, O>, o1: O, o2: O, merge: spec_fn(C, O) -> C)
    ensures
        built(set_override(set_override(s, Some(o1)), Some(o2)), merge) == built(
            set_override(s, Some(o2)),
            merge,
        ),
        built(set_override(set_override(s, Some(o1)), None), merge) == s.inner,
{
}

/// `build` computes `built`: with `merge` a closure whose results are those
/// of `m`, the built config is `built(s, m)`.
pub proof fn law_build_is_built<C, O, F: FnOnce(C, O) -> C>(s: Staged<C, O>, merge: F, m: spec_fn(C, O) -> C, r: C)
    requires
        forall|c: C, o: O, x: C| merge.ensures((c, o), x) ==> x == m(c, o),
        match s.override_conf {
            Some(o) => merge.ensures((s.inner, o), r),
            None => r == s.inner,
        },
    ensures
        r == built(s, m),
{
}

/// An override value, when present, is what the field holds afterwards; an
/// absent one leaves the field as configured.
pub proof fn law_override_replaces<T>(current: T, v: T)
    ensures
        applied(current, Some(v)) == v,
        applied(current, None) == current,
{
}

} // verus!
