use vstd::prelude::*;

use crate::types::Address;

verus! {

/// `s` with every occurrence of `a` left out, the others in their order.
pub open spec fn remove_all(s: Seq<Address>, a: Address) -> Seq<Address>
    decreases s.len(),
{
    if s.len() == 0 {
        s
    } else {
        let rest = remove_all(s.drop_last(), a);
        if s.last() == a {
            rest
        } else {
            rest.push(s.last())
        }
    }
}

/// What `remove_all` keeps: exactly the other elements.
pub proof fn lemma_remove_all_contains(s: Seq<Address>, a: Address, x: Address)
    ensures
        remove_all(s, a).contains(x) <==> (s.contains(x) && x != a),
    decreases s.len(),
{
    if s.len() > 0 {
        let d = s.drop_last();
        lemma_remove_all_contains(d, a, x);
        assert(s =~= d.push(s.last()));
        lemma_push_contains(d, s.last(), x);
        lemma_push_contains(remove_all(d, a), s.last(), x);
    }
}

/// What a sequence holds after a push.
pub proof fn lemma_push_contains(s: Seq<Address>, y: Address, x: Address)
    ensures
        s.push(y).contains(x) <==> (s.contains(x) || x == y),
{
    let p = s.push(y);
    if s.contains(x) {
        let k = choose|k: int| 0 <= k < s.len() && s[k] == x;
        assert(p[k] == x);
    }
    if x == y {
        assert(p[s.len() as int] == x);
    }
    if p.contains(x) {
        let k = choose|k: int| 0 <= k < p.len() && p[k] == x;
        if k < s.len() {
            assert(s[k] == x);
        }
    }
}

/// Leaving out an element that does not occur changes nothing.
pub proof fn lemma_remove_all_absent(s: Seq<Address>, a: Address)
    requires
        !s.contains(a),
    ensures
        remove_all(s, a) == s,
    decreases s.len(),
{
    if s.len() > 0 {
        let d = s.drop_last();
        assert(!d.contains(a)) by {
            if d.contains(a) {
                let k = choose|k: int| 0 <= k < d.len() && d[k] == a;
                assert(s[k] == a);
            }
        }
        lemma_remove_all_absent(d, a);
        assert(s.last() != a) by {
            assert(s[s.len() - 1] == s.last());
        }
        assert(s =~= d.push(s.last()));
    }
}

/// Leaving out an element keeps a sequence free of duplicates.
pub proof fn lemma_remove_all_no_duplicates(s: Seq<Address>, a: Address)
    requires
        s.no_duplicates(),
    ensures
        remove_all(s, a).no_duplicates(),
    decreases s.len(),
{
    if s.len() > 0 {
        let d = s.drop_last();
        assert(d.no_duplicates()) by {
            assert forall|i: int, j: int| 0 <= i < d.len() && 0 <= j < d.len() && i != j implies d[i]
                != d[j] by {
                assert(d[i] == s[i] && d[j] == s[j]);
            }
        }
        lemma_remove_all_no_duplicates(d, a);
        if s.last() != a {
            let r = remove_all(d, a);
            lemma_remove_all_contains(d, a, s.last());
            assert(!d.contains(s.last())) by {
                if d.contains(s.last()) {
                    let k = choose|k: int| 0 <= k < d.len() && d[k] == s.last();
                    assert(s[k] == s[s.len() - 1]);
                }
            }
            let p = r.push(s.last());
            assert forall|i: int, j: int| 0 <= i < p.len() && 0 <= j < p.len() && i != j implies p[i]
                != p[j] by {
                if i < r.len() && j < r.len() {
                    assert(p[i] == r[i] && p[j] == r[j]);
                } else if i < r.len() {
                    assert(p[i] == r[i]);
                    assert(r.contains(r[i]));
                } else if j < r.len() {
                    assert(p[j] == r[j]);
                    assert(r.contains(r[j]));
                }
            }
        }
    }
}

/// In a sequence without duplicates, leaving out an element that occurs
/// shortens it by one.
pub proof fn lemma_remove_all_len(s: Seq<Address>, a: Address)
    requires
        s.no_duplicates(),
        s.contains(a),
    ensures
        remove_all(s, a).len() == s.len() - 1,
    decreases s.len(),
{
    let d = s.drop_last();
    assert(d.no_duplicates()) by {
        assert forall|i: int, j: int| 0 <= i < d.len() && 0 <= j < d.len() && i != j implies d[i]
            != d[j] by {
            assert(d[i] == s[i] && d[j] == s[j]);
        }
    }
    if s.last() == a {
        assert(!d.contains(a)) by {
            if d.contains(a) {
                let k = choose|k: int| 0 <= k < d.len() && d[k] == a;
                assert(s[k] == s[s.len() - 1]);
            }
        }
        lemma_remove_all_absent(d, a);
    } else {
        let k = choose|k: int| 0 <= k < s.len() && s[k] == a;
        assert(k != s.len() - 1);
        assert(d[k] == a);
        lemma_remove_all_len(d, a);
    }
}

/// Appending an absent element and then leaving it out gives back the sequence.
pub proof fn lemma_remove_all_push(s: Seq<Address>, a: Address)
    requires
        !s.contains(a),
    ensures
        remove_all(s.push(a), a) == s,
{
    let p = s.push(a);
    assert(p.drop_last() =~= s);
    assert(p.last() == a);
    lemma_remove_all_absent(s, a);
}

/// Appending an absent element keeps a sequence free of duplicates.
pub proof fn lemma_push_no_duplicates(s: Seq<Address>, a: Address)
    requires
        s.no_duplicates(),
        !s.contains(a),
    ensures
        s.push(a).no_duplicates(),
{
    let p = s.push(a);
    assert forall|i: int, j: int| 0 <= i < p.len() && 0 <= j < p.len() && i != j implies p[i]
        != p[j] by {
        if i < s.len() && j < s.len() {
            assert(p[i] == s[i] && p[j] == s[j]);
        } else if i < s.len() {
            assert(p[i] == s[i]);
            assert(s.contains(s[i]));
        } else if j < s.len() {
            assert(p[j] == s[j]);
            assert(s.contains(s[j]));
        }
    }
}

/// `remove_all` keeps, in their order, exactly the elements other than `a`.
pub proof fn lemma_remove_all_is_filter(s: Seq<Address>, a: Address)
    ensures
        remove_all(s, a) == s.filter(|x: Address| x != a),
    decreases s.len(),
{
    reveal(Seq::filter);
    if s.len() > 0 {
        lemma_remove_all_is_filter(s.drop_last(), a);
    }
}

/// Whether `a` occurs in `v`.
pub fn contains_address(v: &Vec<Address>, a: &Address) -> (r: bool)
    ensures
        r == v@.contains(*a),
{
    let mut i: usize = 0;
    while i < v.len()
        invariant
            0 <= i <= v.len(),
            forall|j: int| 0 <= j < i ==> v@[j] != *a,
        decreases v.len() - i,
    {
        if v[i].same_as(a) {
            assert(v@[i as int] == *a);
            return true;
        }
        i = i + 1;
    }
    false
}

/// `v` with every occurrence of `a` left out.
pub fn without_address(v: &Vec<Address>, a: &Address) -> (r: Vec<Address>)
    ensures
        r@ == remove_all(v@, *a),
{
    let mut r: Vec<Address> = Vec::new();
    let mut i: usize = 0;
    assert(v@.take(0) =~= Seq::<Address>::empty());
    while i < v.len()
        invariant
            0 <= i <= v.len(),
            r@ == remove_all(v@.take(i as int), *a),
        decreases v.len() - i,
    {
        let x = v[i];
        assert(v@.take(i + 1).drop_last() =~= v@.take(i as int));
        assert(v@.take(i + 1).last() == x);
        if !x.same_as(a) {
            r.push(x);
        }
        i = i + 1;
    }
    assert(v@.take(v.len() as int) =~= v@);
    r
}

/// Whether some address occurs twice in `v`.
pub fn has_duplicate(v: &Vec<Address>) -> (r: bool)
    ensures
        r == !v@.no_duplicates(),
{
    let mut seen: Vec<Address> = Vec::new();
    let mut i: usize = 0;
    while i < v.len()
        invariant
            0 <= i <= v.len(),
            seen@ == v@.take(i as int),
            seen@.no_duplicates(),
        decreases v.len() - i,
    {
        let x = v[i];
        if contains_address(&seen, &x) {
            proof {
                let k = choose|k: int| 0 <= k < seen@.len() && seen@[k] == x;
                assert(v@[k] == v@[i as int]);
            }
            return true;
        }
        seen.push(x);
        assert(seen@ =~= v@.take(i + 1));
        i = i + 1;
    }
    assert(v@.take(v.len() as int) =~= v@);
    false
}

/// A fresh vector holding the addresses of `v` in order.
pub fn copy_addresses(v: &Vec<Address>) -> (r: Vec<Address>)
    ensures
        r@ == v@,
{
    let mut r: Vec<Address> = Vec::new();
    let mut i: usize = 0;
    while i < v.len()
        invariant
            0 <= i <= v.len(),
            r@ == v@.take(i as int),
        decreases v.len() - i,
    {
        r.push(v[i]);
        assert(r@ =~= v@.take(i + 1));
        i = i + 1;
    }
    assert(v@.take(v.len() as int) =~= v@);
    r
}

} // verus!
