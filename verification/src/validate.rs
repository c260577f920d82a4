//! Checks over the set of field keys seen on one field: no key twice, no
//! key beside one that implies it, no two incompatible keys, and every
//! dependency present.

use vstd::prelude::*;
use crate::attr::{FieldAttr, spec_dependencies, spec_implied, spec_incompatible};
use crate::error::ParseError;
use crate::ident::Ident;

verus! {

/// Keys seen so far on a field, each with the identifier it was written as,
/// in the order they were written.
pub type Seen = Vec<(FieldAttr, Ident)>;

/// `a` occurs among the seen keys.
pub open spec fn has_key(seen: Seq<(FieldAttr, Ident)>, a: FieldAttr) -> bool {
    exists|j: int| 0 <= j < seen.len() && #[trigger] seen[j].0 == a
}

/// The keys of `seen` are pairwise distinct.
pub open spec fn keys_unique(seen: Seq<(FieldAttr, Ident)>) -> bool {
    forall|i: int, j: int|
        0 <= i < seen.len() && 0 <= j < seen.len() && i != j ==> #[trigger] seen[i].0
            != #[trigger] seen[j].0
}

/// The two relations between keys that forbid a pair of keys.
pub enum Relation {
    Implies,
    Excludes,
}

pub open spec fn spec_related(rel: Relation, a: FieldAttr) -> Seq<FieldAttr> {
    match rel {
        Relation::Implies => spec_implied(a),
        Relation::Excludes => spec_incompatible(a),
    }
}

/// Seen key `i` relates to seen key `j`.
pub open spec fn violates(rel: Relation, seen: Seq<(FieldAttr, Ident)>, i: int, j: int) -> bool {
    &&& 0 <= i < seen.len()
    &&& 0 <= j < seen.len()
    &&& spec_related(rel, seen[i].0).contains(seen[j].0)
}

/// No pair of seen keys is in the relation.
pub open spec fn free_of(rel: Relation, seen: Seq<(FieldAttr, Ident)>) -> bool {
    forall|i: int, j: int| !#[trigger] violates(rel, seen, i, j)
}

/// Seen key `i` depends on `dep`, which was not seen.
pub open spec fn misses_dep(seen: Seq<(FieldAttr, Ident)>, i: int, dep: FieldAttr) -> bool {
    &&& 0 <= i < seen.len()
    &&& spec_dependencies(seen[i].0).contains(dep)
    &&& !has_key(seen, dep)
}

/// Every dependency of a seen key was seen too.
pub open spec fn deps_present(seen: Seq<(FieldAttr, Ident)>) -> bool {
    forall|i: int, dep: FieldAttr| !#[trigger] misses_dep(seen, i, dep)
}

/// `e` reports a key written beside a key that implies it.
pub open spec fn is_implicit_error(e: ParseError, seen: Seq<(FieldAttr, Ident)>) -> bool {
    exists|i: int, j: int|
        #[trigger] violates(Relation::Implies, seen, i, j) && e == (ParseError::ImplicitAttr {
            ident: seen[j].1,
            other: seen[i].1,
        })
}

/// `e` reports two keys that cannot be combined.
pub open spec fn is_mutex_error(e: ParseError, seen: Seq<(FieldAttr, Ident)>) -> bool {
    exists|i: int, j: int|
        #[trigger] violates(Relation::Excludes, seen, i, j) && e == (ParseError::IncompatibleAttrs {
            ident: seen[j].1,
            other: seen[i].1,
        })
}

/// `e` reports a key whose dependency is missing.
pub open spec fn is_missing_dep_error(e: ParseError, seen: Seq<(FieldAttr, Ident)>) -> bool {
    exists|i: int, dep: FieldAttr|
        #[trigger] misses_dep(seen, i, dep) && e == (ParseError::MissingAttrDep {
            present: seen[i].1,
            missing: dep,
        })
}

fn related(rel: &Relation, a: FieldAttr) -> (r: Vec<FieldAttr>)
    ensures
        r@ == spec_related(*rel, a),
{
    match rel {
        Relation::Implies => a.implied_attrs(),
        Relation::Excludes => a.incompatible_attrs(),
    }
}

/// Position of the key `a` among the seen keys.
pub fn find_key(seen: &Seen, a: FieldAttr) -> (r: Option<usize>)
    ensures
        match r {
            Some(j) => j < seen@.len() && seen@[j as int].0 == a,
            None => !has_key(seen@, a),
        },
{
    let mut j: usize = 0;
    while j < seen.len()
        invariant
            j <= seen@.len(),
            forall|k: int| 0 <= k < j ==> seen@[k].0 != a,
        decreases seen.len() - j,
    {
        if seen[j].0 == a {
            return Some(j);
        }
        j = j + 1;
    }
    None
}

/// Finds a pair of seen keys in the relation, if there is one.
fn find_violation(rel: &Relation, seen: &Seen) -> (r: Option<(usize, usize)>)
    ensures
        match r {
            Some((i, j)) => violates(*rel, seen@, i as int, j as int),
            None => free_of(*rel, seen@),
        },
{
    let mut i: usize = 0;
    while i < seen.len()
        invariant
            i <= seen@.len(),
            forall|i2: int, j2: int| 0 <= i2 < i ==> !#[trigger] violates(*rel, seen@, i2, j2),
        decreases seen.len() - i,
    {
        let others = related(rel, seen[i].0);
        let mut k: usize = 0;
        while k < others.len()
            invariant
                i < seen@.len(),
                others@ == spec_related(*rel, seen@[i as int].0),
                k <= others@.len(),
                forall|k2: int, j2: int|
                    #![trigger seen@[j2], others@[k2]]
                    0 <= k2 < k && 0 <= j2 < seen@.len() ==> seen@[j2].0 != others@[k2],
            decreases others.len() - k,
        {
            match find_key(seen, others[k]) {
                Some(j) => {
                    assert(spec_related(*rel, seen@[i as int].0).contains(seen@[j as int].0)) by {
                        assert(others@[k as int] == seen@[j as int].0);
                    }
                    return Some((i, j));
                },
                None => {},
            }
            k = k + 1;
        }
        assert forall|i2: int, j2: int| 0 <= i2 < i + 1 implies !#[trigger] violates(
            *rel,
            seen@,
            i2,
            j2,
        ) by {
            if i2 == i && violates(*rel, seen@, i2, j2) {
                let k2 = choose|k2: int| 0 <= k2 < others@.len() && others@[k2] == seen@[j2].0;
                assert(seen@[j2].0 != others@[k2]);
            }
        }
        i = i + 1;
    }
    None
}

/// Rejects `attr` if it was already seen.
pub fn validate_unique(attr: FieldAttr, seen: &Seen) -> (r: Result<(), ParseError>)
    ensures
        r is Ok <==> !has_key(seen@, attr),
        r matches Err(e) ==> exists|j: int|
            0 <= j < seen@.len() && seen@[j].0 == attr && e == (ParseError::DuplicateAttr {
                ident: #[trigger] seen@[j].1,
            }),
{
    match find_key(seen, attr) {
        Some(j) => Err(ParseError::DuplicateAttr { ident: seen[j].1.duplicate() }),
        None => Ok(()),
    }
}

/// Rejects a key written beside another key that already implies it.
///
/// The error names the implied key and, as `other`, the key that implies it.
pub fn validate_implicit(seen: &Seen) -> (r: Result<(), ParseError>)
    ensures
        r is Ok <==> free_of(Relation::Implies, seen@),
        r matches Err(e) ==> is_implicit_error(e, seen@),
{
    match find_violation(&Relation::Implies, seen) {
        Some((i, j)) => Err(
            ParseError::ImplicitAttr { ident: seen[j].1.duplicate(), other: seen[i].1.duplicate() },
        ),
        None => Ok(()),
    }
}

/// Rejects two keys that cannot be combined.
///
/// The error names the excluded key and, as `other`, the key that excludes it.
pub fn validate_mutex(seen: &Seen) -> (r: Result<(), ParseError>)
    ensures
        r is Ok <==> free_of(Relation::Excludes, seen@),
        r matches Err(e) ==> is_mutex_error(e, seen@),
{
    match find_violation(&Relation::Excludes, seen) {
        Some((i, j)) => Err(
            ParseError::IncompatibleAttrs {
                ident: seen[j].1.duplicate(),
                other: seen[i].1.duplicate(),
            },
        ),
        None => Ok(()),
    }
}

/// Rejects a key whose dependency was not written.
pub fn validate_deps(seen: &Seen) -> (r: Result<(), ParseError>)
    ensures
        r is Ok <==> deps_present(seen@),
        r matches Err(e) ==> is_missing_dep_error(e, seen@),
{
    let mut i: usize = 0;
    while i < seen.len()
        invariant
            i <= seen@.len(),
            forall|i2: int, d: FieldAttr| 0 <= i2 < i ==> !#[trigger] misses_dep(seen@, i2, d),
        decreases seen.len() - i,
    {
        let deps = seen[i].0.dependencies();
        let mut k: usize = 0;
        while k < deps.len()
            invariant
                i < seen@.len(),
                deps@ == spec_dependencies(seen@[i as int].0),
                k <= deps@.len(),
                forall|k2: int| 0 <= k2 < k ==> has_key(seen@, #[trigger] deps@[k2]),
            decreases deps.len() - k,
        {
            let dep = deps[k];
            match find_key(seen, dep) {
                None => {
                    assert(misses_dep(seen@, i as int, dep));
                    return Err(
                        ParseError::MissingAttrDep { present: seen[i].1.duplicate(), missing: dep },
                    );
                },
                Some(_) => {},
            }
            k = k + 1;
        }
        assert forall|i2: int, d: FieldAttr| 0 <= i2 < i + 1 implies !#[trigger] misses_dep(
            seen@,
            i2,
            d,
        ) by {
            if i2 == i && misses_dep(seen@, i2, d) {
                let k2 = choose|k2: int| 0 <= k2 < deps@.len() && deps@[k2] == d;
                assert(has_key(seen@, deps@[k2]));
            }
        }
        i = i + 1;
    }
    Ok(())
}

} // verus!
