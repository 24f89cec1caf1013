//! Environment variables given as a list of name/value assignments, where a
//! later assignment of a name replaces an earlier one.

use vstd::prelude::*;

verus! {

/// An assignment list as text: each name and value by its characters.
pub open spec fn env_view(v: Seq<(String, String)>) -> Seq<(Seq<char>, Seq<char>)> {
    v.map_values(|p: (String, String)| (p.0@, p.1@))
}

/// The variables that the assignments define, each with the value of its
/// last assignment.
pub open spec fn env_map(p: Seq<(Seq<char>, Seq<char>)>) -> Map<Seq<char>, Seq<char>>
    decreases p.len(),
{
    if p.len() == 0 {
        Map::empty()
    } else {
        env_map(p.drop_last()).insert(p.last().0, p.last().1)
    }
}

/// No name is assigned twice.
pub open spec fn names_unique(p: Seq<(Seq<char>, Seq<char>)>) -> bool {
    forall|i: int, j: int| 0 <= i < p.len() && 0 <= j < p.len() && i != j ==> p[i].0 != p[j].0
}

/// A name is defined exactly when some assignment names it.
pub proof fn law_defined_iff_assigned(p: Seq<(Seq<char>, Seq<char>)>, name: Seq<char>)
    ensures
        env_map(p).dom().contains(name) <==> exists|j: int| 0 <= j < p.len() && p[j].0 == name,
    decreases p.len(),
{
    if p.len() > 0 {
        law_defined_iff_assigned(p.drop_last(), name);
        if env_map(p).dom().contains(name) && p.last().0 != name {
            let j = choose|j: int| 0 <= j < p.drop_last().len() && p.drop_last()[j].0 == name;
            assert(p[j].0 == name);
        }
        if exists|j: int| 0 <= j < p.len() && p[j].0 == name {
            let j = choose|j: int| 0 <= j < p.len() && p[j].0 == name;
            if j < p.len() - 1 {
                assert(p.drop_last()[j].0 == name);
            }
        }
    }
}

/// The last assignment of a name gives its value: assignments after it that
/// name other variables leave it untouched.
pub proof fn law_last_assignment_wins(p: Seq<(Seq<char>, Seq<char>)>, j: int)
    requires
        0 <= j < p.len(),
        forall|k: int| j < k < p.len() ==> p[k].0 != p[j].0,
    ensures
        env_map(p).dom().contains(p[j].0),
        env_map(p)[p[j].0] == p[j].1,
    decreases p.len(),
{
    if j < p.len() - 1 {
        law_last_assignment_wins(p.drop_last(), j);
    }
}

proof fn lemma_update_unique(p: Seq<(Seq<char>, Seq<char>)>, j: int, value: Seq<char>)
    requires
        names_unique(p),
        0 <= j < p.len(),
    ensures
        env_map(p.update(j, (p[j].0, value))) == env_map(p).insert(p[j].0, value),
        names_unique(p.update(j, (p[j].0, value))),
    decreases p.len(),
{
    let q = p.update(j, (p[j].0, value));
    if j == p.len() - 1 {
        assert(q.drop_last() =~= p.drop_last());
        assert(env_map(q) =~= env_map(p).insert(p[j].0, value));
    } else {
        assert(q.drop_last() =~= p.drop_last().update(j, (p[j].0, value)));
        lemma_update_unique(p.drop_last(), j, value);
        assert(p.last().0 != p[j].0);
        assert(env_map(q) =~= env_map(p).insert(p[j].0, value));
    }
}

/// Finds the value that the last assignment of `name` gives, if any.
pub fn lookup(pairs: &Vec<(String, String)>, name: &str) -> (r: Option<String>)
    ensures
        r is Some <==> env_map(env_view(pairs@)).dom().contains(name@),
        r matches Some(v) ==> v@ == env_map(env_view(pairs@))[name@],
{
    let ghost p = env_view(pairs@);
    let mut i = pairs.len();
    while i > 0
        invariant
            i <= pairs@.len(),
            p == env_view(pairs@),
            forall|k: int| i <= k < p.len() ==> p[k].0 != name@,
        decreases i,
    {
        let found = crate::text::same_text(pairs[i - 1].0.as_str(), name);
        if found {
            proof {
                law_last_assignment_wins(p, i - 1);
            }
            return Some(pairs[i - 1].1.clone());
        }
        i = i - 1;
    }
    proof {
        law_defined_iff_assigned(p, name@);
    }
    None
}

/// The variables of an assignment list, each once, with the value of its last
/// assignment.
pub fn collect_env(pairs: &Vec<(String, String)>) -> (r: Vec<(String, String)>)
    ensures
        names_unique(env_view(r@)),
        env_map(env_view(r@)) == env_map(env_view(pairs@)),
{
    let ghost p = env_view(pairs@);
    let mut r: Vec<(String, String)> = Vec::new();
    let mut i: usize = 0;
    assert(p.take(0) =~= Seq::<(Seq<char>, Seq<char>)>::empty());
    assert(env_view(r@) =~= Seq::<(Seq<char>, Seq<char>)>::empty());
    while i < pairs.len()
        invariant
            i <= pairs@.len(),
            p == env_view(pairs@),
            names_unique(env_view(r@)),
            env_map(env_view(r@)) == env_map(p.take(i as int)),
        decreases pairs@.len() - i,
    {
        let name = pairs[i].0.clone();
        let value = pairs[i].1.clone();
        assert(p.take(i + 1).drop_last() =~= p.take(i as int));
        let mut j: usize = 0;
        let mut at: Option<usize> = None;
        while j < r.len()
            invariant_except_break
                j <= r@.len(),
                at is None,
                forall|k: int| 0 <= k < j ==> env_view(r@)[k].0 != name@,
            ensures
                match at {
                    Some(x) => x < r@.len() && env_view(r@)[x as int].0 == name@,
                    None => forall|k: int| 0 <= k < r@.len() ==> env_view(r@)[k].0 != name@,
                },
            decreases r@.len() - j,
        {
            if r[j].0 == name {
                at = Some(j);
                break;
            }
            j = j + 1;
        }
        let ghost before = env_view(r@);
        match at {
            Some(j) => {
                proof {
                    lemma_update_unique(before, j as int, value@);
                }
                r.set(j, (name, value));
                assert(env_view(r@) =~= before.update(j as int, (before[j as int].0, value@)));
            },
            None => {
                r.push((name, value));
                assert(env_view(r@).drop_last() =~= before);
                assert forall|a: int, b: int|
                    0 <= a < env_view(r@).len() && 0 <= b < env_view(r@).len() && a != b
                        implies env_view(r@)[a].0 != env_view(r@)[b].0 by {
                    if a < before.len() && b < before.len() {
                        assert(env_view(r@)[a] == before[a]);
                        assert(env_view(r@)[b] == before[b]);
                    } else if a < before.len() {
                        assert(env_view(r@)[a] == before[a]);
                    } else {
                        assert(env_view(r@)[b] == before[b]);
                    }
                }
            },
        }
        i = i + 1;
    }
    assert(p.take(i as int) =~= p);
    r
}

} // verus!

verus! {

/// Whether assignment `j` is the last one of its name.
pub open spec fn last_of_its_name(p: Seq<(Seq<char>, Seq<char>)>, j: int) -> bool {
    &&& 0 <= j < p.len()
    &&& forall|k: int| j < k < p.len() ==> p[k].0 != p[j].0
}

/// A list that defines, each once, the variables of an assignment list holds
/// exactly its last assignments: every last assignment of a name stands in
/// it, and it names nothing that is not assigned.
pub proof fn law_collected_holds_last_assignments(
    collected: Seq<(Seq<char>, Seq<char>)>,
    assigned: Seq<(Seq<char>, Seq<char>)>,
)
    requires
        names_unique(collected),
        env_map(collected) == env_map(assigned),
    ensures
        forall|j: int| #[trigger] last_of_its_name(assigned, j) ==> exists|i: int|
            0 <= i < collected.len() && collected[i] == assigned[j],
        forall|i: int| 0 <= i < collected.len() ==> exists|j: int|
            0 <= j < assigned.len() && assigned[j].0 == #[trigger] collected[i].0,
{
    assert forall|j: int| #[trigger] last_of_its_name(assigned, j) implies exists|i: int|
        0 <= i < collected.len() && collected[i] == assigned[j] by {
        let name = assigned[j].0;
        law_last_assignment_wins(assigned, j);
        law_defined_iff_assigned(collected, name);
        let i = choose|i: int| 0 <= i < collected.len() && collected[i].0 == name;
        law_last_assignment_wins(collected, i);
    }
    assert forall|i: int| 0 <= i < collected.len() implies exists|j: int|
        0 <= j < assigned.len() && assigned[j].0 == #[trigger] collected[i].0 by {
        law_defined_iff_assigned(collected, collected[i].0);
        law_defined_iff_assigned(assigned, collected[i].0);
    }
}

} // verus!
