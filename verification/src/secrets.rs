//! Reconciling the secrets that a configuration requires with the values
//! that are already stored: a stored value is kept as it is, and only a
//! secret without one is asked for.

use crate::config::{distinct_secrets, EnvSecret, EnvSecretView, Secret, SecretView};
use crate::text::{concat3, trim, trimmed};
use vstd::prelude::*;
use vstd::string::*;

verus! {

/// The first position at or after `from` whose secret is called `name`.
pub open spec fn find_from(stored: Seq<SecretView>, name: Seq<char>, from: int) -> Option<int>
    decreases stored.len() - from,
{
    if from < 0 || from >= stored.len() {
        None
    } else if stored[from].name == name {
        Some(from)
    } else {
        find_from(stored, name, from + 1)
    }
}

/// The first position whose secret is called `name`.
pub open spec fn position(stored: Seq<SecretView>, name: Seq<char>) -> Option<int> {
    find_from(stored, name, 0)
}

/// The value stored under `name`, if there is one.
pub open spec fn stored_value(stored: Seq<SecretView>, name: Seq<char>) -> Option<Seq<char>> {
    match position(stored, name) {
        Some(i) => Some(stored[i].value),
        None => None,
    }
}

/// `stored` with `value` under `name`: in place of the old value where the
/// name has one, at the end otherwise.
pub open spec fn upsert(stored: Seq<SecretView>, name: Seq<char>, value: Seq<char>) -> Seq<
    SecretView,
> {
    match position(stored, name) {
        Some(i) => stored.update(i, SecretView { name, value }),
        None => stored.push(SecretView { name, value }),
    }
}

/// The required secrets that have no stored value, in the order in which
/// they are required.
pub open spec fn missing(required: Seq<EnvSecretView>, stored: Seq<SecretView>) -> Seq<
    EnvSecretView,
>
    decreases required.len(),
{
    if required.len() == 0 {
        Seq::empty()
    } else {
        let rest = missing(required.drop_last(), stored);
        if stored_value(stored, required.last().name) is None {
            rest.push(required.last())
        } else {
            rest
        }
    }
}

/// The secrets of a machine after reconciliation: one entry for every
/// required name, holding the stored value where there is one, and otherwise
/// the answer given for it. `answers` holds one answer for each missing
/// secret, in order.
pub open spec fn reconciled(
    required: Seq<EnvSecretView>,
    stored: Seq<SecretView>,
    answers: Seq<Seq<char>>,
) -> Seq<SecretView>
    decreases required.len(),
{
    if required.len() == 0 {
        Seq::empty()
    } else {
        let init = required.drop_last();
        let last = required.last();
        let before = reconciled(init, stored, answers);
        match stored_value(stored, last.name) {
            Some(value) => upsert(before, last.name, value),
            None => upsert(before, last.name, answers[missing(init, stored).len() as int]),
        }
    }
}

/// The question that asks for a secret.
pub open spec fn prompt_text(secret: EnvSecretView) -> Seq<char> {
    "Please enter secret '"@ + secret.name + "' (Toggle input mask with <Ctrl+R>):"@
}

/// The help shown with the question: the secret's description without
/// surrounding white space.
pub open spec fn prompt_help(secret: EnvSecretView) -> Seq<char> {
    trimmed(secret.description)
}

/// What `find_from` finds is the first match at or after `from`, and it
/// finds nothing only where nothing matches.
pub proof fn lemma_find_from(stored: Seq<SecretView>, name: Seq<char>, from: int)
    requires
        0 <= from,
    ensures
        match find_from(stored, name, from) {
            Some(i) => from <= i < stored.len() && stored[i].name == name && forall|j: int|
                from <= j < i ==> stored[j].name != name,
            None => forall|j: int| from <= j < stored.len() ==> stored[j].name != name,
        },
    decreases stored.len() - from,
{
    if from < stored.len() && stored[from].name != name {
        lemma_find_from(stored, name, from + 1);
    }
}

/// A position that holds `name`, with no earlier one that does, is the one
/// that `position` gives.
pub proof fn lemma_position_is(stored: Seq<SecretView>, name: Seq<char>, i: int)
    requires
        0 <= i < stored.len(),
        stored[i].name == name,
        forall|j: int| 0 <= j < i ==> stored[j].name != name,
    ensures
        position(stored, name) == Some(i),
{
    lemma_find_from(stored, name, 0);
}

/// After `upsert`, the name holds the new value and every other name holds
/// what it held.
pub proof fn lemma_upsert(
    stored: Seq<SecretView>,
    name: Seq<char>,
    value: Seq<char>,
    other: Seq<char>,
)
    ensures
        stored_value(upsert(stored, name, value), other) == if other == name {
            Some(value)
        } else {
            stored_value(stored, other)
        },
{
    let after = upsert(stored, name, value);
    lemma_find_from(stored, name, 0);
    lemma_find_from(stored, other, 0);
    lemma_find_from(after, other, 0);
    match position(stored, name) {
        Some(i) => {
            if other == name {
                lemma_position_is(after, other, i);
            } else {
                match position(stored, other) {
                    Some(k) => {
                        lemma_position_is(after, other, k);
                    },
                    None => {},
                }
            }
        },
        None => {
            if other == name {
                lemma_position_is(after, other, stored.len() as int);
            } else {
                match position(stored, other) {
                    Some(k) => {
                        lemma_position_is(after, other, k);
                    },
                    None => {},
                }
            }
        },
    }
}

/// Storing a value keeps every name single.
pub proof fn lemma_upsert_distinct(stored: Seq<SecretView>, name: Seq<char>, value: Seq<char>)
    requires
        distinct_secrets(stored),
    ensures
        distinct_secrets(upsert(stored, name, value)),
{
    lemma_find_from(stored, name, 0);
}

/// The reconciled secrets name every secret once.
pub proof fn lemma_reconciled_distinct(
    required: Seq<EnvSecretView>,
    stored: Seq<SecretView>,
    answers: Seq<Seq<char>>,
)
    ensures
        distinct_secrets(reconciled(required, stored, answers)),
    decreases required.len(),
{
    if required.len() > 0 {
        let init = required.drop_last();
        let last = required.last();
        lemma_reconciled_distinct(init, stored, answers);
        let before = reconciled(init, stored, answers);
        match stored_value(stored, last.name) {
            Some(value) => lemma_upsert_distinct(before, last.name, value),
            None => lemma_upsert_distinct(
                before,
                last.name,
                answers[missing(init, stored).len() as int],
            ),
        }
    }
}

/// The position of the first secret called `name`.
pub fn find(stored: &Vec<Secret>, name: &String) -> (r: Option<usize>)
    ensures
        match r {
            Some(i) => i < stored.len() && position(stored.deep_view(), name@) == Some(i as int),
            None => position(stored.deep_view(), name@) is None,
        },
{
    let ghost view = stored.deep_view();
    let mut i: usize = 0;
    while i < stored.len()
        invariant
            i <= stored.len(),
            view == stored.deep_view(),
            position(view, name@) == find_from(view, name@, i as int),
        decreases stored.len() - i,
    {
        if stored[i].name == *name {
            return Some(i);
        }
        i = i + 1;
    }
    None
}

/// The value stored under `name`, if there is one.
pub fn lookup(stored: &Vec<Secret>, name: &String) -> (r: Option<String>)
    ensures
        r.deep_view() == stored_value(stored.deep_view(), name@),
{
    match find(stored, name) {
        Some(i) => {
            Some(stored[i].value.clone())
        },
        None => None,
    }
}

/// Stores `value` under `name`, in place of an older value if there is one.
pub fn store(stored: &mut Vec<Secret>, name: String, value: String)
    ensures
        final(stored).deep_view() == upsert(old(stored).deep_view(), name@, value@),
        distinct_secrets(old(stored).deep_view()) ==> distinct_secrets(final(stored).deep_view()),
{
    let ghost before = stored.deep_view();
    proof {
        if distinct_secrets(before) {
            lemma_upsert_distinct(before, name@, value@);
        }
    }
    let ghost entry = SecretView { name: name@, value: value@ };
    match find(stored, &name) {
        Some(i) => {
            stored.set(i, Secret { name, value });
            assert(stored.deep_view() =~= before.update(i as int, entry));
        },
        None => {
            stored.push(Secret { name, value });
            assert(stored.deep_view() =~= before.push(entry));
        },
    }
}

/// The required secrets that have no stored value and must be asked for.
pub fn missing_secrets(required: &Vec<EnvSecret>, stored: &Vec<Secret>) -> (r: Vec<EnvSecret>)
    ensures
        r.deep_view() == missing(required.deep_view(), stored.deep_view()),
{
    let ghost req = required.deep_view();
    let ghost sto = stored.deep_view();
    let mut r: Vec<EnvSecret> = Vec::new();
    let mut i: usize = 0;
    while i < required.len()
        invariant
            i <= required.len(),
            req == required.deep_view(),
            sto == stored.deep_view(),
            r.deep_view() == missing(req.take(i as int), sto),
        decreases required.len() - i,
    {
        proof {
            assert(req.take(i as int + 1).drop_last() =~= req.take(i as int));
        }
        if find(stored, &required[i].name).is_none() {
            r.push(required[i].clone());
        }
        i = i + 1;
    }
    assert(req.take(i as int) =~= req);
    r
}

/// The secrets of a machine after reconciliation, or nothing where the
/// number of answers is not the number of missing secrets.
pub fn reconcile(required: &Vec<EnvSecret>, stored: &Vec<Secret>, answers: &Vec<String>) -> (r:
    Option<Vec<Secret>>)
    ensures
        r is Some <==> answers.len() == missing(
            required.deep_view(),
            stored.deep_view(),
        ).len(),
        r matches Some(all) ==> all.deep_view() == reconciled(
            required.deep_view(),
            stored.deep_view(),
            answers.deep_view(),
        ) && distinct_secrets(all.deep_view()),
{
    proof {
        lemma_reconciled_distinct(
            required.deep_view(),
            stored.deep_view(),
            answers.deep_view(),
        );
    }
    let ghost req = required.deep_view();
    let ghost sto = stored.deep_view();
    let ghost ans = answers.deep_view();
    let mut all: Vec<Secret> = Vec::new();
    let mut used: usize = 0;
    let mut i: usize = 0;
    while i < required.len()
        invariant
            i <= required.len(),
            req == required.deep_view(),
            sto == stored.deep_view(),
            ans == answers.deep_view(),
            used == missing(req.take(i as int), sto).len(),
            used <= answers.len(),
            used <= i,
            all.deep_view() == reconciled(req.take(i as int), sto, ans),
        decreases required.len() - i,
    {
        proof {
            assert(req.take(i as int + 1).drop_last() =~= req.take(i as int));
        }
        match lookup(stored, &required[i].name) {
            Some(value) => {
                store(&mut all, required[i].name.clone(), value);
            },
            None => {
                if used >= answers.len() {
                    proof {
                        lemma_missing_grows(req, sto, i as int + 1);
                    }
                    return None;
                }
                store(&mut all, required[i].name.clone(), answers[used].clone());
                used = used + 1;
            },
        }
        i = i + 1;
    }
    assert(req.take(i as int) =~= req);
    if used == answers.len() {
        Some(all)
    } else {
        None
    }
}

/// The question that asks for `secret`.
pub fn prompt_message(secret: &EnvSecret) -> (r: String)
    ensures
        r@ == prompt_text(secret@),
{
    concat3(
        "Please enter secret '",
        secret.name.as_str(),
        "' (Toggle input mask with <Ctrl+R>):",
    )
}

/// The help shown while asking for `secret`.
pub fn prompt_help_message(secret: &EnvSecret) -> (r: String)
    ensures
        r@ == prompt_help(secret@),
{
    trim(secret.description.as_str())
}

/// A longer list of required secrets has at least as many missing ones.
pub proof fn lemma_missing_grows(required: Seq<EnvSecretView>, stored: Seq<SecretView>, n: int)
    requires
        0 <= n <= required.len(),
    ensures
        missing(required.take(n), stored).len() <= missing(required, stored).len(),
    decreases required.len() - n,
{
    if n < required.len() {
        lemma_missing_grows(required, stored, n + 1);
        assert(required.take(n + 1).drop_last() =~= required.take(n));
    } else {
        assert(required.take(n) =~= required);
    }
}

/// A secret is asked for exactly if it is required and has no stored value.
pub proof fn lemma_missing_exact(
    required: Seq<EnvSecretView>,
    stored: Seq<SecretView>,
    secret: EnvSecretView,
)
    ensures
        missing(required, stored).contains(secret) <==> required.contains(secret)
            && stored_value(stored, secret.name) is None,
    decreases required.len(),
{
    if required.len() > 0 {
        let init = required.drop_last();
        let last = required.last();
        lemma_missing_exact(init, stored, secret);
        let rest = missing(init, stored);
        if required.contains(secret) {
            let k = choose|k: int| 0 <= k < required.len() && required[k] == secret;
            if k < init.len() {
                assert(init[k] == secret);
            }
        }
        if init.contains(secret) {
            let k = choose|k: int| 0 <= k < init.len() && init[k] == secret;
            assert(required[k] == secret);
        }
        if stored_value(stored, last.name) is None {
            let more = rest.push(last);
            assert(more[more.len() - 1] == last);
            if rest.contains(secret) {
                let k = choose|k: int| 0 <= k < rest.len() && rest[k] == secret;
                assert(more[k] == secret);
            }
            if more.contains(secret) {
                let k = choose|k: int| 0 <= k < more.len() && more[k] == secret;
                if k < rest.len() {
                    assert(rest[k] == secret);
                }
            }
        }
    }
}

/// Secret preservation: a required secret that has a stored value keeps
/// exactly that value, whatever the answers are.
pub proof fn lemma_stored_value_kept(
    required: Seq<EnvSecretView>,
    stored: Seq<SecretView>,
    answers: Seq<Seq<char>>,
    i: int,
)
    requires
        0 <= i < required.len(),
        stored_value(stored, required[i].name) is Some,
    ensures
        stored_value(reconciled(required, stored, answers), required[i].name) == stored_value(
            stored,
            required[i].name,
        ),
    decreases required.len(),
{
    let init = required.drop_last();
    let last = required.last();
    let before = reconciled(init, stored, answers);
    let name = required[i].name;
    match stored_value(stored, last.name) {
        Some(value) => {
            lemma_upsert(before, last.name, value, name);
        },
        None => {
            lemma_upsert(
                before,
                last.name,
                answers[missing(init, stored).len() as int],
                name,
            );
        },
    }
    if name != last.name {
        lemma_stored_value_kept(init, stored, answers, i);
    }
}

/// After reconciliation a name has a value exactly if it is required.
pub proof fn lemma_reconciled_names(
    required: Seq<EnvSecretView>,
    stored: Seq<SecretView>,
    answers: Seq<Seq<char>>,
    name: Seq<char>,
)
    ensures
        stored_value(reconciled(required, stored, answers), name) is Some <==> exists|i: int|
            0 <= i < required.len() && #[trigger] required[i].name == name,
    decreases required.len(),
{
    if required.len() == 0 {
        lemma_find_from(Seq::<SecretView>::empty(), name, 0);
    } else {
        let init = required.drop_last();
        let last = required.last();
        let before = reconciled(init, stored, answers);
        lemma_reconciled_names(init, stored, answers, name);
        match stored_value(stored, last.name) {
            Some(value) => {
                lemma_upsert(before, last.name, value, name);
            },
            None => {
                lemma_upsert(
                    before,
                    last.name,
                    answers[missing(init, stored).len() as int],
                    name,
                );
            },
        }
        if name == last.name {
            assert(required[required.len() - 1].name == name);
        } else {
            if exists|i: int| 0 <= i < init.len() && #[trigger] init[i].name == name {
                let k = choose|k: int| 0 <= k < init.len() && #[trigger] init[k].name == name;
                assert(required[k].name == name);
            }
            if exists|i: int| 0 <= i < required.len() && #[trigger] required[i].name == name {
                let k = choose|k: int|
                    0 <= k < required.len() && #[trigger] required[k].name == name;
                assert(init[k].name == name);
            }
        }
    }
}

} // verus!
