//! Lists of identifiers: distinctness, membership and removal.
use vstd::prelude::*;
use crate::tus::types::UploadId;
use crate::transfer::types::TransferId;

verus! {

broadcast use vstd::seq_lib::group_filter_ensures, Seq::lemma_filter_contains_rev, Seq::lemma_filter_push;

/// No identifier occurs twice.
pub open spec fn distinct<A>(s: Seq<A>) -> bool {
    forall|i: int, j: int| 0 <= i < s.len() && 0 <= j < s.len() && i != j ==> s[i] != s[j]
}

/// The list with every occurrence of `id` taken out, the others in order.
pub open spec fn without<A>(s: Seq<A>, id: A) -> Seq<A> {
    s.filter(not_id(id))
}

pub open spec fn not_id<A>(id: A) -> spec_fn(A) -> bool {
    |x: A| x != id
}

pub proof fn lemma_without_contains<A>(s: Seq<A>, id: A, x: A)
    ensures
        without(s, id).contains(x) <==> (s.contains(x) && x != id),
{
    let p = not_id(id);
    if s.contains(x) && x != id {
        let i = choose|i: int| 0 <= i < s.len() && s[i] == x;
        s.lemma_filter_contains(p, i);
    }
    if without(s, id).contains(x) {
        let j = choose|j: int| 0 <= j < without(s, id).len() && without(s, id)[j] == x;
        s.lemma_filter_pred(p, j);
    }
}

pub proof fn lemma_without_absent<A>(s: Seq<A>, id: A)
    requires
        !s.contains(id),
    ensures
        without(s, id) == s,
    decreases s.len(),
{
    let p = not_id(id);
    if s.len() > 0 {
        let rest = s.drop_last();
        assert(!rest.contains(id)) by {
            if rest.contains(id) {
                let k = choose|k: int| 0 <= k < rest.len() && rest[k] == id;
                assert(s[k] == id);
            }
        }
        lemma_without_absent(rest, id);
        assert(rest.push(s.last()) == s);
        rest.lemma_filter_push(s.last(), p);
    } else {
        reveal(Seq::filter);
    }
}

pub proof fn lemma_without_distinct<A>(s: Seq<A>, id: A)
    requires
        distinct(s),
    ensures
        distinct(without(s, id)),
    decreases s.len(),
{
    let p = not_id(id);
    if s.len() > 0 {
        let rest = s.drop_last();
        lemma_without_distinct(rest, id);
        assert(rest.push(s.last()) == s);
        rest.lemma_filter_push(s.last(), p);
        if s.last() != id {
            lemma_without_contains(rest, id, s.last());
            assert(!rest.contains(s.last()));
        }
    } else {
        reveal(Seq::filter);
    }
}

/// In a list without repeats, taking out the entry at `i` takes out every
/// occurrence of its value.
pub proof fn lemma_remove_distinct_at<A>(s: Seq<A>, i: int)
    requires
        distinct(s),
        0 <= i < s.len(),
    ensures
        s.remove(i) == without(s, s[i]),
        distinct(s.remove(i)),
    decreases s.len(),
{
    let id = s[i];
    let p = not_id(id);
    let rest = s.drop_last();
    assert(rest.push(s.last()) == s);
    rest.lemma_filter_push(s.last(), p);
    if i == s.len() - 1 {
        assert(!rest.contains(id)) by {
            if rest.contains(id) {
                let k = choose|k: int| 0 <= k < rest.len() && rest[k] == id;
                assert(s[k] == s[i]);
            }
        }
        lemma_without_absent(rest, id);
        assert(s.remove(i) =~= rest);
    } else {
        assert(distinct(rest));
        lemma_remove_distinct_at(rest, i);
        assert(s.last() != id);
        assert(s.remove(i) =~= rest.remove(i).push(s.last()));
    }
    lemma_without_distinct(s, id);
}

pub proof fn lemma_filter_distinct<A>(s: Seq<A>, p: spec_fn(A) -> bool)
    requires
        distinct(s),
    ensures
        distinct(s.filter(p)),
        forall|x: A| #[trigger] s.filter(p).contains(x) <==> (s.contains(x) && p(x)),
    decreases s.len(),
{
    reveal(Seq::filter);
    if s.len() > 0 {
        let rest = s.drop_last();
        lemma_filter_distinct(rest, p);
        assert(rest.push(s.last()) == s);
        rest.lemma_filter_push(s.last(), p);
        assert(!rest.contains(s.last())) by {
            if rest.contains(s.last()) {
                let k = choose|k: int| 0 <= k < rest.len() && rest[k] == s.last();
                assert(s[k] == s[s.len() - 1]);
            }
        }
        assert forall|x: A| #[trigger] s.filter(p).contains(x) <==> (s.contains(x) && p(x)) by {
            if s.contains(x) && x != s.last() {
                let k = choose|k: int| 0 <= k < s.len() && s[k] == x;
                assert(rest[k] == x);
            }
            if rest.contains(x) {
                let k = choose|k: int| 0 <= k < rest.len() && rest[k] == x;
                assert(s[k] == x);
            }
            if p(s.last()) && rest.filter(p).contains(x) {
                let k = choose|k: int| 0 <= k < rest.filter(p).len() && rest.filter(p)[k] == x;
                assert(s.filter(p)[k] == x);
            }
            if p(s.last()) && x == s.last() {
                assert(s.filter(p)[rest.filter(p).len() as int] == x);
            }
            if p(s.last()) && s.filter(p).contains(x) && x != s.last() {
                let k = choose|k: int| 0 <= k < s.filter(p).len() && s.filter(p)[k] == x;
                assert(rest.filter(p)[k] == x);
            }
        }
        if p(s.last()) {
            let f = s.filter(p);
            let fr = rest.filter(p);
            assert forall|i: int, j: int| 0 <= i < f.len() && 0 <= j < f.len() && i != j implies f[i] != f[j] by {
                if i < fr.len() && j < fr.len() {
                    assert(f[i] == fr[i] && f[j] == fr[j]);
                } else if i < fr.len() {
                    assert(fr.contains(f[i]));
                } else {
                    assert(fr.contains(f[j]));
                }
            }
        }
    }
}

pub fn contains_id(v: &Vec<UploadId>, id: UploadId) -> (r: bool)
    ensures
        r == v@.contains(id),
{
    let mut i: usize = 0;
    while i < v.len()
        invariant
            i <= v.len(),
            forall|k: int| 0 <= k < i ==> v@[k] != id,
        decreases v.len() - i,
    {
        if v[i] == id {
            return true;
        }
        i = i + 1;
    }
    false
}

/// Takes every occurrence of `id` out of the list.
pub fn remove_id(v: &mut Vec<UploadId>, id: UploadId)
    ensures
        final(v)@ == without(old(v)@, id),
{
    let ghost p = not_id(id);
    let mut r: Vec<UploadId> = Vec::new();
    let mut i: usize = 0;
    proof {
        reveal(Seq::filter);
        assert(old(v)@.subrange(0, 0).filter(p) =~= Seq::<UploadId>::empty());
    }
    while i < v.len()
        invariant
            i <= v.len(),
            v@ == old(v)@,
            r@ == v@.subrange(0, i as int).filter(p),
            p == not_id(id),
        decreases v.len() - i,
    {
        let x = v[i];
        proof {
            assert(v@.subrange(0, i as int + 1) == v@.subrange(0, i as int).push(x));
            v@.subrange(0, i as int).lemma_filter_push(x, p);
        }
        if x != id {
            r.push(x);
        }
        i = i + 1;
    }
    assert(v@.subrange(0, v@.len() as int) == v@);
    *v = r;
}

pub fn contains_transfer_id(v: &Vec<TransferId>, id: TransferId) -> (r: bool)
    ensures
        r == v@.contains(id),
{
    let mut i: usize = 0;
    while i < v.len()
        invariant
            i <= v.len(),
            forall|k: int| 0 <= k < i ==> v@[k] != id,
        decreases v.len() - i,
    {
        if v[i] == id {
            return true;
        }
        i = i + 1;
    }
    false
}

/// Takes every occurrence of `id` out of the list.
pub fn remove_transfer_id(v: &mut Vec<TransferId>, id: TransferId)
    ensures
        final(v)@ == without(old(v)@, id),
{
    let ghost p = not_id(id);
    let mut r: Vec<TransferId> = Vec::new();
    let mut i: usize = 0;
    proof {
        reveal(Seq::filter);
        assert(old(v)@.subrange(0, 0).filter(p) =~= Seq::<TransferId>::empty());
    }
    while i < v.len()
        invariant
            i <= v.len(),
            v@ == old(v)@,
            r@ == v@.subrange(0, i as int).filter(p),
            p == not_id(id),
        decreases v.len() - i,
    {
        let x = v[i];
        proof {
            assert(v@.subrange(0, i as int + 1) == v@.subrange(0, i as int).push(x));
            v@.subrange(0, i as int).lemma_filter_push(x, p);
        }
        if x != id {
            r.push(x);
        }
        i = i + 1;
    }
    assert(v@.subrange(0, v@.len() as int) == v@);
    *v = r;
}

} // verus!
