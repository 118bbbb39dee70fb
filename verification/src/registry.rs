//! The rules by which a name is resolved against the ordered list of
//! instances, stated over the names alone, and what follows from them.

use vstd::prelude::*;

verus! {

/// A name as the contracts see it.
pub open spec fn name_view(name: Option<String>) -> Option<Seq<char>> {
    match name {
        None => None,
        Some(text) => Some(text@),
    }
}

/// Whether `i` is the first position whose entry carries the name `wanted`.
pub open spec fn is_first_named(names: Seq<Option<Seq<char>>>, wanted: Seq<char>, i: int) -> bool {
    &&& 0 <= i < names.len()
    &&& names[i] == Some(wanted)
    &&& forall|j: int| 0 <= j < i ==> names[j] != Some(wanted)
}

/// The position that a lookup resolves to. Without a name it is the entry
/// added last; with one, the first entry that carries the name. Names need
/// not be unique, and an entry without a name is never found by name.
pub open spec fn resolve(names: Seq<Option<Seq<char>>>, name: Option<Seq<char>>) -> Option<int> {
    match name {
        None => if names.len() > 0 {
            Some(names.len() - 1)
        } else {
            None
        },
        Some(wanted) => if has_named(names, wanted) {
            Some(first_named(names, wanted))
        } else {
            None
        },
    }
}

/// Whether some entry carries the name `wanted`.
pub open spec fn has_named(names: Seq<Option<Seq<char>>>, wanted: Seq<char>) -> bool {
    exists|i: int| is_first_named(names, wanted, i)
}

/// The first position whose entry carries the name `wanted`, where there
/// is one.
pub open spec fn first_named(names: Seq<Option<Seq<char>>>, wanted: Seq<char>) -> int {
    choose|i: int| is_first_named(names, wanted, i)
}

/// What a failed lookup reports.
pub open spec fn missing_message(name: Option<Seq<char>>) -> Seq<char> {
    match name {
        None => "no defined instances"@,
        Some(wanted) => "no instance named "@ + wanted,
    }
}

/// A position that is the first to carry a name is the one the name
/// resolves to.
pub proof fn lemma_resolve_first(names: Seq<Option<Seq<char>>>, wanted: Seq<char>, i: int)
    requires
        is_first_named(names, wanted, i),
    ensures
        resolve(names, Some(wanted)) == Some(i),
{
    assert(has_named(names, wanted));
    let k = resolve(names, Some(wanted)).unwrap();
    assert(is_first_named(names, wanted, k));
    if k < i {
        assert(names[k] != Some(wanted));
    } else if i < k {
        assert(names[i] != Some(wanted));
    }
}

/// A lookup succeeds exactly when an entry qualifies, and then lands inside
/// the list on an entry that does.
pub proof fn lemma_resolve_sound(names: Seq<Option<Seq<char>>>, name: Option<Seq<char>>)
    ensures
        match resolve(names, name) {
            Some(i) => 0 <= i < names.len() && match name {
                None => i == names.len() - 1,
                Some(wanted) => is_first_named(names, wanted, i),
            },
            None => match name {
                None => names.len() == 0,
                Some(wanted) => forall|j: int| 0 <= j < names.len() ==> names[j] != Some(wanted),
            },
        },
{
    match name {
        None => {},
        Some(wanted) => {
            if has_named(names, wanted) {
                let k = resolve(names, name).unwrap();
                assert(is_first_named(names, wanted, k));
            } else {
                assert forall|j: int| 0 <= j < names.len() implies names[j] != Some(wanted) by {
                    if names[j] == Some(wanted) {
                        lemma_first_exists(names, wanted, j);
                    }
                }
            }
        },
    }
}

/// If some entry up to position `bound` carries the name, one of them is the
/// first to do so.
proof fn lemma_first_exists(names: Seq<Option<Seq<char>>>, wanted: Seq<char>, bound: int)
    requires
        0 <= bound < names.len(),
        names[bound] == Some(wanted),
    ensures
        exists|i: int| is_first_named(names, wanted, i) && i <= bound,
    decreases bound,
{
    if exists|j: int| 0 <= j < bound && names[j] == Some(wanted) {
        let j = choose|j: int| 0 <= j < bound && names[j] == Some(wanted);
        lemma_first_exists(names, wanted, j);
    } else {
        assert(is_first_named(names, wanted, bound));
    }
}

/// A name that no entry carries resolves to nothing, whatever else the list
/// holds.
pub proof fn lemma_unknown_name_fails(names: Seq<Option<Seq<char>>>, wanted: Seq<char>)
    requires
        forall|j: int| 0 <= j < names.len() ==> names[j] != Some(wanted),
    ensures
        resolve(names, Some(wanted)) is None,
{
    lemma_resolve_sound(names, Some(wanted));
}

/// Last created wins: once an entry is appended, under whatever name, a
/// lookup without a name resolves to that entry.
pub proof fn lemma_newest_is_current(names: Seq<Option<Seq<char>>>, name: Option<Seq<char>>)
    ensures
        resolve(names.push(name), None) == Some(names.len() as int),
{
}

/// Where an alias resolves to after the entry found under `name` has been
/// renamed to it: to that entry, unless an earlier entry already carried the
/// alias, which then still comes first.
pub proof fn lemma_alias_after_register(
    names: Seq<Option<Seq<char>>>,
    name: Option<Seq<char>>,
    alias: Seq<char>,
)
    requires
        resolve(names, name) is Some,
    ensures
        ({
            let i = resolve(names, name).unwrap();
            let renamed = names.update(i, Some(alias));
            resolve(renamed, Some(alias)) == match resolve(names, Some(alias)) {
                Some(k) => if k < i {
                    Some(k)
                } else {
                    Some(i)
                },
                None => Some(i),
            }
        }),
{
    let i = resolve(names, name).unwrap();
    let renamed = names.update(i, Some(alias));
    lemma_resolve_sound(names, name);
    lemma_resolve_sound(names, Some(alias));
    match resolve(names, Some(alias)) {
        Some(k) => {
            if k < i {
                assert(is_first_named(renamed, alias, k));
                lemma_resolve_first(renamed, alias, k);
            } else {
                assert(is_first_named(renamed, alias, i));
                lemma_resolve_first(renamed, alias, i);
            }
        },
        None => {
            assert(is_first_named(renamed, alias, i));
            lemma_resolve_first(renamed, alias, i);
        },
    }
}

/// An instance registered under an alias is found again under that alias,
/// provided no earlier entry carries the alias already.
pub proof fn lemma_alias_resolves_to_registered(
    names: Seq<Option<Seq<char>>>,
    name: Option<Seq<char>>,
    alias: Seq<char>,
)
    requires
        resolve(names, name) is Some,
        forall|j: int| 0 <= j < resolve(names, name).unwrap() ==> names[j] != Some(alias),
    ensures
        resolve(names.update(resolve(names, name).unwrap(), Some(alias)), Some(alias)) == resolve(
            names,
            name,
        ),
{
    let i = resolve(names, name).unwrap();
    lemma_resolve_sound(names, name);
    let renamed = names.update(i, Some(alias));
    assert(is_first_named(renamed, alias, i));
    lemma_resolve_first(renamed, alias, i);
}

/// Removing the last entry makes the entry before it the current one, and
/// undoes an append for every lookup.
pub proof fn lemma_delete_restores_previous(
    names: Seq<Option<Seq<char>>>,
    added: Option<Seq<char>>,
    name: Option<Seq<char>>,
)
    ensures
        names.len() >= 2 ==> resolve(names.drop_last(), None) == Some(names.len() - 2),
        names.len() == 1 ==> resolve(names.drop_last(), None) is None,
        resolve(names.push(added).drop_last(), name) == resolve(names, name),
{
    assert(names.push(added).drop_last() =~= names);
}

} // verus!
