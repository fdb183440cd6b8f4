//! Figures about a program: how often each operation, actor and tag occurs,
//! and the span of time that its actions cover.

use crate::ast::{actions_view, ActionModel, Program};
use crate::document::operation_debug;
use crate::float;
use crate::table::{
    bindings, lemma_bindings_push, lemma_bindings_update, pairs_view, upserted, Table,
};
use crate::value::{find_from, lemma_find_from, lookup};
use crate::text::{push_text, texts_view};
use vstd::prelude::*;
use vstd::string::*;

verus! {

/// How often `name` occurs among the first `n` names.
pub open spec fn occurrences(names: Seq<Seq<char>>, n: nat, name: Seq<char>) -> nat
    decreases n,
{
    if n == 0 || n > names.len() {
        0
    } else {
        occurrences(names, (n - 1) as nat, name) + (if names[n - 1] == name {
            1nat
        } else {
            0nat
        })
    }
}

/// No name occurs more often than there are names.
pub proof fn lemma_occurrences_bound(names: Seq<Seq<char>>, n: nat, name: Seq<char>)
    requires
        n <= names.len(),
    ensures
        occurrences(names, n, name) <= n,
    decreases n,
{
    if n > 0 {
        lemma_occurrences_bound(names, (n - 1) as nat, name);
    }
}

/// The tally of the first `n` names: each name with the number of its
/// occurrences, in the order in which the names first occur.
pub open spec fn tallied(names: Seq<Seq<char>>, n: nat) -> Seq<(Seq<char>, usize)>
    decreases n,
{
    if n == 0 || n > names.len() {
        Seq::empty()
    } else {
        let front = tallied(names, (n - 1) as nat);
        let seen: usize = match lookup(front, names[n - 1]) {
            Some(count) => count,
            None => 0,
        };
        upserted(front, names[n - 1], (seen + 1) as usize)
    }
}

/// A tally holds for each name the number of its occurrences, and holds no
/// name that does not occur.
pub proof fn lemma_tallied(names: Seq<Seq<char>>, n: nat, name: Seq<char>)
    requires
        n <= names.len(),
        n <= usize::MAX,
    ensures
        lookup(tallied(names, n), name) == (if occurrences(names, n, name) > 0 {
            Some(occurrences(names, n, name) as usize)
        } else {
            None
        }),
    decreases n,
{
    if n > 0 {
        let front = tallied(names, (n - 1) as nat);
        let last = names[n - 1];
        lemma_tallied(names, (n - 1) as nat, name);
        lemma_tallied(names, (n - 1) as nat, last);
        lemma_occurrences_bound(names, (n - 1) as nat, last);
        let seen: usize = match lookup(front, last) {
            Some(count) => count,
            None => 0,
        };
        let next = (seen + 1) as usize;
        lemma_find_from(front, last, 0);
        match find_from(front, last, 0) {
            Some(i) => {
                lemma_bindings_update(front, last, i, next);
            },
            None => {
                lemma_bindings_push(front, last, next);
            },
        }
        assert(bindings(tallied(names, n)) == bindings(front).insert(last, next));
        assert(bindings(tallied(names, n)).contains_key(name) == (lookup(tallied(names, n), name)
            is Some));
        assert(bindings(front).contains_key(name) == (lookup(front, name) is Some));
        if lookup(tallied(names, n), name) is Some {
            assert(bindings(tallied(names, n))[name] == lookup(tallied(names, n), name)->0);
        }
        if lookup(front, name) is Some {
            assert(bindings(front)[name] == lookup(front, name)->0);
        }
    }
}

/// Counts how often each name occurs. The table lists the names in the
/// order in which they first occur.
pub fn tally(names: &Vec<String>) -> (r: Table<usize>)
    ensures
        pairs_view(r.entries@) == tallied(texts_view(names@), names.len() as nat),
{
    let ghost nv = texts_view(names@);
    let mut counts: Table<usize> = Table::new();
    assert(pairs_view(counts.entries@) =~= Seq::empty());
    let mut i: usize = 0;
    while i < names.len()
        invariant
            i <= names.len(),
            nv == texts_view(names@),
            pairs_view(counts.entries@) == tallied(nv, i as nat),
        decreases names.len() - i,
    {
        let name = names[i].as_str();
        proof {
            lemma_tallied(nv, i as nat, name@);
            lemma_occurrences_bound(nv, i as nat, name@);
        }
        let seen: usize = match counts.get(name) {
            Some(count) => *count,
            None => 0,
        };
        counts.insert(names[i].clone(), seen + 1);
        i += 1;
    }
    counts
}

/// The order of a ranking: every index below `n` once.
pub open spec fn is_order(order: Seq<int>, n: nat) -> bool {
    &&& order.len() == n
    &&& forall|i: int| 0 <= i < order.len() ==> 0 <= #[trigger] order[i] < n
    &&& forall|i: int, j: int| 0 <= i < j < order.len() ==> order[i] != order[j]
}

/// Whether `ranked` lists the entries of `counts` in the order `order`, from
/// the highest count to the lowest, entries of equal count in the order in
/// which `counts` lists them.
pub open spec fn ranks(
    counts: Seq<(Seq<char>, usize)>,
    ranked: Seq<(Seq<char>, usize)>,
    order: Seq<int>,
) -> bool {
    &&& is_order(order, ranked.len())
    &&& ranked.len() <= counts.len()
    &&& forall|i: int| 0 <= i < ranked.len() ==> #[trigger] ranked[i] == counts[order[i]]
    &&& forall|i: int, j: int|
        0 <= i < j < ranked.len() ==> ranked[i].1 > ranked[j].1 || (ranked[i].1 == ranked[j].1
            && order[i] < order[j])
}

/// The entries of a tally from the highest count to the lowest; entries of
/// equal count stay in their order.
pub fn rank(counts: &Table<usize>) -> (r: Vec<(String, usize)>)
    ensures
        r.len() == counts.entries.len(),
        exists|order: Seq<int>|
            ranks(pairs_view(counts.entries@), pairs_view(r@), order) && is_order(
                order,
                counts.entries.len() as nat,
            ),
{
    let entries = &counts.entries;
    let n = entries.len();
    let ghost cv = pairs_view(entries@);
    let mut used: Vec<bool> = Vec::new();
    let mut k: usize = 0;
    while k < n
        invariant
            k <= n,
            used.len() == k,
            forall|j: int| 0 <= j < k ==> !used[j],
        decreases n - k,
    {
        used.push(false);
        k += 1;
    }
    let mut out: Vec<(String, usize)> = Vec::new();
    let ghost mut order: Seq<int> = Seq::empty();
    let mut taken: usize = 0;
    while taken < n
        invariant
            taken <= n,
            n == entries.len(),
            used.len() == n,
            out.len() == taken,
            cv == pairs_view(entries@),
            order.len() == taken,
            forall|i: int| 0 <= i < order.len() ==> 0 <= #[trigger] order[i] < n,
            forall|i: int, j: int| 0 <= i < j < order.len() ==> order[i] != order[j],
            forall|j: int| 0 <= j < n ==> (used[j] <==> exists|i: int|
                0 <= i < order.len() && order[i] == j),
            forall|i: int| 0 <= i < taken ==> #[trigger] pairs_view(out@)[i] == cv[order[i]],
            forall|i: int, j: int|
                0 <= i < j < taken ==> cv[order[i]].1 > cv[order[j]].1 || (cv[order[i]].1
                    == cv[order[j]].1 && order[i] < order[j]),
            forall|i: int, j: int|
                0 <= i < taken && 0 <= j < n && !used[j] ==> cv[order[i]].1 > cv[j].1 || (
                cv[order[i]].1 == cv[j].1 && order[i] < j),
        decreases n - taken,
    {
        // The first unused entry with the highest count among the unused.
        let mut best: usize = 0;
        let mut found = false;
        let mut j: usize = 0;
        while j < n
            invariant
                j <= n,
                n == entries.len(),
                used.len() == n,
                cv == pairs_view(entries@),
                found ==> best < j && !used[best as int],
                found ==> forall|t: int|
                    0 <= t < j && !used[t] ==> cv[best as int].1 > cv[t].1 || (cv[best as int].1
                        == cv[t].1 && best <= t),
                !found ==> forall|t: int| 0 <= t < j ==> used[t],
            decreases n - j,
        {
            if !used[j] {
                if !found || entries[j].1 > entries[best].1 {
                    best = j;
                    found = true;
                }
            }
            j += 1;
        }
        proof {
            if !found {
                lemma_order_is_full(order, n as nat, used@);
            }
        }
        assert(found);
        let ghost before = pairs_view(out@);
        let ghost old_order = order;
        let ghost old_used = used@;
        out.push((entries[best].0.clone(), entries[best].1));
        used.set(best, true);
        proof {
            order = order.push(best as int);
            assert(pairs_view(out@) =~= before.push(cv[best as int]));
            assert forall|t: int| 0 <= t < n implies (used[t] <==> exists|i: int|
                0 <= i < order.len() && order[i] == t) by {
                if t == best {
                    assert(order[taken as int] == t);
                } else if old_used[t] {
                    let i = choose|i: int| 0 <= i < old_order.len() && old_order[i] == t;
                    assert(order[i] == t);
                } else {
                    if exists|i: int| 0 <= i < order.len() && order[i] == t {
                        let i = choose|i: int| 0 <= i < order.len() && order[i] == t;
                        assert(i < taken);
                        assert(old_order[i] == t);
                    }
                }
            }
            assert forall|i: int, j: int| 0 <= i < j < order.len() implies order[i] != order[j] by {
                if j == taken {
                    if order[i] == best {
                        assert(old_order[i] == best);
                        assert(old_used[best as int]);
                    }
                }
            }
        }
        taken += 1;
    }
    proof {
        assert(ranks(cv, pairs_view(out@), order));
    }
    out
}

/// An order that uses every index below `n` has at least `n` places.
proof fn lemma_order_is_full(order: Seq<int>, n: nat, used: Seq<bool>)
    requires
        used.len() == n,
        forall|i: int| 0 <= i < order.len() ==> 0 <= #[trigger] order[i] < n,
        forall|j: int| 0 <= j < n ==> (used[j] <==> exists|i: int|
            0 <= i < order.len() && order[i] == j),
        forall|t: int| 0 <= t < n ==> used[t],
    ensures
        order.len() >= n,
{
    let indices = order.to_set();
    let all = Set::<int>::new(|j: int| 0 <= j < n);
    assert forall|j: int| all.contains(j) implies indices.contains(j) by {
        assert(used[j]);
        let i = choose|i: int| 0 <= i < order.len() && order[i] == j;
        assert(order.contains(j));
    }
    vstd::set_lib::lemma_int_range(0, n as int);
    assert(all =~= vstd::set_lib::set_int_range(0, n as int));
    order.lemma_cardinality_of_set();
    vstd::set_lib::lemma_len_subset(all, indices);
}

/// The names of the operations of the first `n` actions, as a trace
/// writes them.
pub open spec fn operations_of(actions: Seq<ActionModel>, n: nat) -> Seq<Seq<char>>
    decreases n,
{
    if n == 0 || n > actions.len() {
        Seq::empty()
    } else {
        operations_of(actions, (n - 1) as nat).push(operation_debug(actions[n - 1].op))
    }
}

/// The actors of the first `n` actions.
pub open spec fn actors_of(actions: Seq<ActionModel>, n: nat) -> Seq<Seq<char>>
    decreases n,
{
    if n == 0 || n > actions.len() {
        Seq::empty()
    } else {
        actors_of(actions, (n - 1) as nat).push(actions[n - 1].actor)
    }
}

/// The effect tags of the first `n` actions, one after the other.
pub open spec fn tags_of(actions: Seq<ActionModel>, n: nat) -> Seq<Seq<char>>
    decreases n,
{
    if n == 0 || n > actions.len() {
        Seq::empty()
    } else {
        let front = tags_of(actions, (n - 1) as nat);
        match actions[n - 1].effects {
            Some(tags) => front + tags,
            None => front,
        }
    }
}

/// The times of those of the first `n` actions that have one.
pub open spec fn times_of(actions: Seq<ActionModel>, n: nat) -> Seq<u64>
    decreases n,
{
    if n == 0 || n > actions.len() {
        Seq::empty()
    } else {
        let front = times_of(actions, (n - 1) as nat);
        match actions[n - 1].t {
            Some(t) => front.push(t),
            None => front,
        }
    }
}

/// The least of the first `n` times: a later time replaces an earlier one
/// only where it is less.
pub open spec fn least(times: Seq<u64>, n: nat) -> u64
    decreases n,
{
    if n <= 1 || n > times.len() {
        times[0]
    } else {
        let front = least(times, (n - 1) as nat);
        if float::less_than(times[n - 1], front) {
            times[n - 1]
        } else {
            front
        }
    }
}

/// The greatest of the first `n` times: a later time replaces an earlier one
/// only where it is greater.
pub open spec fn greatest(times: Seq<u64>, n: nat) -> u64
    decreases n,
{
    if n <= 1 || n > times.len() {
        times[0]
    } else {
        let front = greatest(times, (n - 1) as nat);
        if float::less_than(front, times[n - 1]) {
            times[n - 1]
        } else {
            front
        }
    }
}

/// The names of the operations of a program, as a trace writes them.
pub fn operation_names(program: &Program) -> (r: Vec<String>)
    ensures
        texts_view(r@) == operations_of(program@.actions, program@.actions.len()),
{
    let ghost av = actions_view(program.actions@);
    let mut out: Vec<String> = Vec::new();
    assert(texts_view(out@) =~= Seq::empty());
    let mut i: usize = 0;
    while i < program.actions.len()
        invariant
            i <= program.actions.len(),
            av == actions_view(program.actions@),
            texts_view(out@) == operations_of(av, i as nat),
        decreases program.actions.len() - i,
    {
        push_text(&mut out, program.actions[i].op.debug_text());
        i += 1;
    }
    out
}

/// The actors of a program's actions.
pub fn actor_names(program: &Program) -> (r: Vec<String>)
    ensures
        texts_view(r@) == actors_of(program@.actions, program@.actions.len()),
{
    let ghost av = actions_view(program.actions@);
    let mut out: Vec<String> = Vec::new();
    assert(texts_view(out@) =~= Seq::empty());
    let mut i: usize = 0;
    while i < program.actions.len()
        invariant
            i <= program.actions.len(),
            av == actions_view(program.actions@),
            texts_view(out@) == actors_of(av, i as nat),
        decreases program.actions.len() - i,
    {
        push_text(&mut out, program.actions[i].actor.clone());
        i += 1;
    }
    out
}

/// The effect tags of a program's actions, one after the other.
pub fn effect_tags(program: &Program) -> (r: Vec<String>)
    ensures
        texts_view(r@) == tags_of(program@.actions, program@.actions.len()),
{
    let ghost av = actions_view(program.actions@);
    let mut out: Vec<String> = Vec::new();
    assert(texts_view(out@) =~= Seq::empty());
    let mut i: usize = 0;
    while i < program.actions.len()
        invariant
            i <= program.actions.len(),
            av == actions_view(program.actions@),
            texts_view(out@) == tags_of(av, i as nat),
        decreases program.actions.len() - i,
    {
        match &program.actions[i].effects {
            Some(tags) => {
                let ghost front = texts_view(out@);
                let ghost tv = texts_view(tags@);
                let mut j: usize = 0;
                while j < tags.len()
                    invariant
                        j <= tags.len(),
                        tv == texts_view(tags@),
                        texts_view(out@) == front + tv.take(j as int),
                    decreases tags.len() - j,
                {
                    let ghost before = texts_view(out@);
                    push_text(&mut out, tags[j].clone());
                    assert(texts_view(out@) =~= front + tv.take(j + 1));
                    j += 1;
                }
                assert(tv.take(tags.len() as int) =~= tv);
            },
            None => {},
        }
        i += 1;
    }
    out
}

/// The times of those actions of a program that have one.
pub fn action_times(program: &Program) -> (r: Vec<u64>)
    ensures
        r@ == times_of(program@.actions, program@.actions.len()),
{
    let ghost av = actions_view(program.actions@);
    let mut out: Vec<u64> = Vec::new();
    let mut i: usize = 0;
    while i < program.actions.len()
        invariant
            i <= program.actions.len(),
            av == actions_view(program.actions@),
            out@ == times_of(av, i as nat),
        decreases program.actions.len() - i,
    {
        match program.actions[i].t {
            Some(t) => {
                out.push(t);
            },
            None => {},
        }
        i += 1;
    }
    out
}

/// The least and the greatest of the times, where there is a time.
pub fn time_range(times: &Vec<u64>) -> (r: Option<(u64, u64)>)
    ensures
        match r {
            Some((lo, hi)) => times.len() > 0 && lo == least(times@, times.len() as nat) && hi
                == greatest(times@, times.len() as nat),
            None => times.len() == 0,
        },
{
    if times.len() == 0 {
        return None;
    }
    let mut lo = times[0];
    let mut hi = times[0];
    let mut i: usize = 1;
    while i < times.len()
        invariant
            1 <= i <= times.len(),
            lo == least(times@, i as nat),
            hi == greatest(times@, i as nat),
        decreases times.len() - i,
    {
        if float::bits_less_than(times[i], lo) {
            lo = times[i];
        }
        if float::bits_less_than(hi, times[i]) {
            hi = times[i];
        }
        i += 1;
    }
    Some((lo, hi))
}

} // verus!
