//! Style-class sets: the ordered, duplicate-free union of class names that a
//! navigation link applies, built from its base classes and either its
//! inactive or its active classes, depending on the active-route predicate.

use vstd::prelude::*;

verus! {

/// The views of a sequence of class names.
pub open spec fn views_of(v: Seq<String>) -> Seq<Seq<char>> {
    v.map_values(|s: String| s@)
}

/// First-occurrence de-duplication: every class name keeps the position of
/// its first appearance and later repetitions are dropped.
pub open spec fn dedup_first(s: Seq<Seq<char>>) -> Seq<Seq<char>>
    decreases s.len(),
{
    if s.len() == 0 {
        Seq::empty()
    } else {
        let front = dedup_first(s.drop_last());
        if front.contains(s.last()) {
            front
        } else {
            front.push(s.last())
        }
    }
}

fn contains_class(v: &Vec<String>, name: &String) -> (r: bool)
    ensures
        r == views_of(v@).contains(name@),
{
    let mut i: usize = 0;
    while i < v.len()
        invariant
            i <= v@.len(),
            forall|j: int| 0 <= j < i ==> v@[j]@ != name@,
        decreases v@.len() - i,
    {
        if *name == v[i] {
            proof {
                assert(views_of(v@)[i as int] == name@);
            }
            return true;
        }
        i = i + 1;
    }
    proof {
        assert forall|j: int| 0 <= j < views_of(v@).len() implies views_of(v@)[j] != name@ by {
            assert(views_of(v@)[j] == v@[j]@);
        }
    }
    false
}

fn push_if_new(out: &mut Vec<String>, name: &String)
    ensures
        views_of(final(out)@) == (if views_of(old(out)@).contains(name@) {
            views_of(old(out)@)
        } else {
            views_of(old(out)@).push(name@)
        }),
{
    if !contains_class(out, name) {
        let ghost before = out@;
        out.push(name.clone());
        proof {
            assert(views_of(out@) =~= views_of(before).push(name@));
        }
    }
}

/// The union of two ordered class-name sets: every name of `first`, then
/// every name of `second`, each kept at its first occurrence only.
pub fn class_union(first: &Vec<String>, second: &Vec<String>) -> (r: Vec<String>)
    ensures
        views_of(r@) == dedup_first(views_of(first@) + views_of(second@)),
{
    let ghost total: Seq<Seq<char>> = views_of(first@) + views_of(second@);
    let mut out: Vec<String> = Vec::new();
    proof {
        assert(total.take(0) =~= Seq::<Seq<char>>::empty());
        assert(views_of(out@) =~= Seq::<Seq<char>>::empty());
    }
    let mut i: usize = 0;
    while i < first.len()
        invariant
            i <= first@.len(),
            total == views_of(first@) + views_of(second@),
            views_of(out@) == dedup_first(total.take(i as int)),
        decreases first@.len() - i,
    {
        let ghost prefix = total.take(i as int);
        push_if_new(&mut out, &first[i]);
        proof {
            assert(total.take(i as int + 1).drop_last() =~= prefix);
            assert(total.take(i as int + 1).last() == first@[i as int]@);
            assert(views_of(out@) == dedup_first(total.take(i as int + 1)));
        }
        i = i + 1;
    }
    let mut k: usize = 0;
    while k < second.len()
        invariant
            k <= second@.len(),
            total == views_of(first@) + views_of(second@),
            views_of(out@) == dedup_first(total.take(first@.len() + k as int)),
        decreases second@.len() - k,
    {
        let ghost pos: int = first@.len() + k as int;
        let ghost prefix = total.take(pos);
        push_if_new(&mut out, &second[k]);
        proof {
            assert(total.take(pos + 1).drop_last() =~= prefix);
            assert(total.take(pos + 1).last() == second@[k as int]@);
            assert(views_of(out@) == dedup_first(total.take(pos + 1)));
        }
        k = k + 1;
    }
    proof {
        assert(total.take(total.len() as int) =~= total);
    }
    out
}

/// The style-class set a navigation link applies: its base classes, followed
/// by its inactive classes when the target route is not active, or by its
/// active classes when it is; first-occurrence order, no duplicate names.
pub fn nav_link_classes(
    base: &Vec<String>,
    inactive_classes: &Vec<String>,
    active_classes: &Vec<String>,
    is_active: bool,
) -> (r: Vec<String>)
    ensures
        views_of(r@) == dedup_first(
            views_of(base@) + (if is_active {
                views_of(active_classes@)
            } else {
                views_of(inactive_classes@)
            }),
        ),
{
    if is_active {
        class_union(base, active_classes)
    } else {
        class_union(base, inactive_classes)
    }
}

/// De-duplication keeps exactly the names of its input: a class name stands
/// in `dedup_first(s)` iff it stands in `s`.
pub proof fn lemma_dedup_first_same_names(s: Seq<Seq<char>>)
    ensures
        forall|x: Seq<char>| dedup_first(s).contains(x) <==> s.contains(x),
    decreases s.len(),
{
    broadcast use vstd::seq_lib::lemma_seq_contains_after_push;

    if s.len() == 0 {
    } else {
        let p = s.drop_last();
        let x0 = s.last();
        let f = dedup_first(p);
        lemma_dedup_first_same_names(p);
        assert(p.push(x0) =~= s);
        assert forall|y: Seq<char>| s.contains(y) == (y == x0 || p.contains(y)) by {
            assert(s.contains(y) == p.push(x0).contains(y));
        }
        if f.contains(x0) {
            assert(dedup_first(s) == f);
        } else {
            assert(dedup_first(s) == f.push(x0));
            assert forall|y: Seq<char>| dedup_first(s).contains(y) == (y == x0 || f.contains(y)) by {
                assert(dedup_first(s).contains(y) == f.push(x0).contains(y));
            }
        }
    }
}

/// De-duplication leaves no duplicate class names: any two distinct
/// positions of `dedup_first(s)` hold distinct names.
pub proof fn lemma_dedup_first_no_duplicates(s: Seq<Seq<char>>)
    ensures
        forall|i: int, j: int|
            0 <= i < j < dedup_first(s).len() ==> dedup_first(s)[i] != dedup_first(s)[j],
    decreases s.len(),
{
    if s.len() == 0 {
    } else {
        let d = dedup_first(s);
        let p = s.drop_last();
        let f = dedup_first(p);
        lemma_dedup_first_no_duplicates(p);
        assert forall|i: int, j: int| 0 <= i < j < d.len() implies d[i] != d[j] by {
            if f.contains(s.last()) {
                assert(d[i] == f[i] && d[j] == f[j]);
            } else {
                if j < f.len() {
                    assert(d[i] == f[i] && d[j] == f[j]);
                } else {
                    assert(d[i] == f[i] && d[j] == s.last());
                    if d[i] == d[j] {
                        assert(f.contains(s.last()));
                    }
                }
            }
        }
    }
}

proof fn lemma_index_of_first_is(s: Seq<Seq<char>>, x: Seq<char>, k: int)
    requires
        0 <= k < s.len(),
        s[k] == x,
        forall|j: int| 0 <= j < k ==> s[j] != x,
    ensures
        s.index_of_first(x) == Some(k),
{
    s.index_of_first_ensures(x);
    assert(s.contains(x));
    let m = s.index_of_first(x)->0;
    if m < k {
        assert(s[m] != x);
        assert(false);
    } else if m > k {
        assert(s[k] != x);
        assert(false);
    }
}

proof fn lemma_index_of_first_extend(p: Seq<Seq<char>>, x: Seq<char>, e: Seq<char>)
    requires
        p.contains(e),
    ensures
        p.push(x).index_of_first(e) == p.index_of_first(e),
        p.index_of_first(e) is Some,
        0 <= p.index_of_first(e)->0 < p.len(),
{
    p.index_of_first_ensures(e);
    let m = p.index_of_first(e)->0;
    assert(p.push(x)[m] == e);
    assert forall|j: int| 0 <= j < m implies p.push(x)[j] != e by {
        assert(p.push(x)[j] == p[j]);
    }
    lemma_index_of_first_is(p.push(x), e, m);
}

/// De-duplication is order-stable: names stand in `dedup_first(s)` in the
/// order of their first occurrences in `s`.
pub proof fn lemma_dedup_first_order_stable(s: Seq<Seq<char>>, i: int, j: int)
    requires
        0 <= i < j < dedup_first(s).len(),
    ensures
        s.index_of_first(dedup_first(s)[i]) is Some,
        s.index_of_first(dedup_first(s)[j]) is Some,
        s.index_of_first(dedup_first(s)[i])->0 < s.index_of_first(dedup_first(s)[j])->0,
    decreases s.len(),
{
    let d = dedup_first(s);
    let p = s.drop_last();
    let x = s.last();
    let f = dedup_first(p);
    assert(s.len() > 0);
    assert(p.push(x) =~= s);
    lemma_dedup_first_same_names(p);
    if f.contains(x) {
        lemma_dedup_first_order_stable(p, i, j);
        assert(f.contains(f[i]));
        assert(f.contains(f[j]));
        lemma_index_of_first_extend(p, x, f[i]);
        lemma_index_of_first_extend(p, x, f[j]);
    } else if j < f.len() {
        lemma_dedup_first_order_stable(p, i, j);
        assert(f.contains(f[i]));
        assert(f.contains(f[j]));
        lemma_index_of_first_extend(p, x, f[i]);
        lemma_index_of_first_extend(p, x, f[j]);
        assert(d[i] == f[i] && d[j] == f[j]);
    } else {
        assert(j == f.len());
        assert(d[j] == x);
        assert(d[i] == f[i]);
        assert(f.contains(f[i]));
        lemma_index_of_first_extend(p, x, f[i]);
        assert(!p.contains(x));
        assert(s[p.len() as int] == x);
        assert forall|m: int| 0 <= m < p.len() implies s[m] != x by {
            assert(s[m] == p[m]);
            if s[m] == x {
                assert(p.contains(x));
            }
        }
        lemma_index_of_first_is(s, x, p.len() as int);
    }
}

} // verus!
