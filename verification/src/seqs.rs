//! Sequences read as sets and searched: removal of repetitions, set
//! difference, and the first element of a kind.

use vstd::prelude::*;

verus! {

/// The elements of `s`, each once, in the order in which they first occur.
pub open spec fn distinct<A>(s: Seq<A>) -> Seq<A>
    decreases s.len(),
{
    if s.len() == 0 {
        Seq::empty()
    } else {
        let init = distinct(s.drop_last());
        if init.contains(s.last()) {
            init
        } else {
            init.push(s.last())
        }
    }
}

/// The elements of `s` that do not occur in `banned`, in their order in `s`.
pub open spec fn excluding<A>(s: Seq<A>, banned: Seq<A>) -> Seq<A> {
    s.filter(|a: A| !banned.contains(a))
}

/// `distinct` keeps exactly the elements of its argument and repeats none.
pub proof fn lemma_distinct<A>(s: Seq<A>)
    ensures
        distinct(s).no_duplicates(),
        distinct(s).len() <= s.len(),
        forall|a: A| #[trigger] distinct(s).contains(a) <==> s.contains(a),
        distinct(s).to_set() == s.to_set(),
    decreases s.len(),
{
    if s.len() > 0 {
        let init = s.drop_last();
        lemma_distinct(init);
        let d = distinct(init);
        assert forall|a: A| #[trigger] distinct(s).contains(a) <==> s.contains(a) by {
            if s.contains(a) {
                let i = choose|i: int| 0 <= i < s.len() && s[i] == a;
                if i < s.len() - 1 {
                    assert(init[i] == a);
                    assert(d.contains(a));
                    let j = choose|j: int| 0 <= j < d.len() && d[j] == a;
                    assert(distinct(s)[j] == a);
                } else if !d.contains(a) {
                    assert(distinct(s)[d.len() as int] == a);
                }
            }
            if distinct(s).contains(a) {
                let j = choose|j: int| 0 <= j < distinct(s).len() && distinct(s)[j] == a;
                if j < d.len() {
                    assert(d.contains(a));
                    let i = choose|i: int| 0 <= i < init.len() && init[i] == a;
                    assert(s[i] == a);
                } else {
                    assert(s[s.len() - 1] == a);
                }
            }
        }
    }
    assert(distinct(s).to_set() =~= s.to_set());
}

/// `excluding` keeps exactly the elements that `banned` lacks, and repeats
/// nothing that its argument did not repeat.
pub proof fn lemma_excluding<A>(s: Seq<A>, banned: Seq<A>)
    ensures
        excluding(s, banned).len() <= s.len(),
        forall|a: A| #[trigger]
            excluding(s, banned).contains(a) <==> s.contains(a) && !banned.contains(a),
        excluding(s, banned).to_set() == s.to_set().difference(banned.to_set()),
        s.no_duplicates() ==> excluding(s, banned).no_duplicates(),
    decreases s.len(),
{
    reveal(Seq::filter);
    let keep = |a: A| !banned.contains(a);
    let out = excluding(s, banned);
    if s.len() > 0 {
        let init = s.drop_last();
        lemma_excluding(init, banned);
        let sub = excluding(init, banned);
        assert forall|a: A| #[trigger] out.contains(a) <==> s.contains(a) && !banned.contains(
            a,
        ) by {
            if s.contains(a) && !banned.contains(a) {
                let i = choose|i: int| 0 <= i < s.len() && s[i] == a;
                if i < s.len() - 1 {
                    assert(init[i] == a);
                    assert(sub.contains(a));
                    let j = choose|j: int| 0 <= j < sub.len() && sub[j] == a;
                    assert(out[j] == a);
                } else {
                    assert(out[sub.len() as int] == a);
                }
            }
            if out.contains(a) {
                let j = choose|j: int| 0 <= j < out.len() && out[j] == a;
                if j < sub.len() {
                    assert(sub[j] == a);
                    assert(sub.contains(a));
                    let i = choose|i: int| 0 <= i < init.len() && init[i] == a;
                    assert(s[i] == a);
                } else {
                    assert(s[s.len() - 1] == a);
                }
            }
        }
        if s.no_duplicates() {
            assert(init.no_duplicates());
            if keep(s.last()) {
                assert forall|i: int, j: int|
                    0 <= i < out.len() && 0 <= j < out.len() && i != j implies out[i] != out[j] by {
                    if i == sub.len() || j == sub.len() {
                        let k = if i == sub.len() {
                            j
                        } else {
                            i
                        };
                        assert(sub.contains(sub[k]));
                        if sub[k] == s.last() {
                            let m = choose|m: int| 0 <= m < init.len() && init[m] == s.last();
                            assert(s[m] == s[s.len() - 1]);
                        }
                    }
                }
            }
        }
    } else {
        assert forall|a: A| #[trigger] out.contains(a) <==> s.contains(a) && !banned.contains(
            a,
        ) by {}
    }
    assert(out.to_set() =~= s.to_set().difference(banned.to_set()));
}

/// Nothing is left of a sequence once every element of it is banned.
pub proof fn lemma_excluding_all<A>(s: Seq<A>, banned: Seq<A>)
    requires
        forall|a: A| s.contains(a) ==> banned.contains(a),
    ensures
        excluding(s, banned) == Seq::<A>::empty(),
{
    lemma_excluding(s, banned);
    let out = excluding(s, banned);
    if out.len() > 0 {
        assert(out.contains(out[0]));
    }
    assert(out =~= Seq::<A>::empty());
}

/// The place in `s` of the first element that meets `wanted`, or the length
/// of `s` where none does.
pub open spec fn first_index<A>(s: Seq<A>, wanted: spec_fn(A) -> bool) -> int
    decreases s.len(),
{
    if s.len() == 0 {
        0
    } else if wanted(s[0]) {
        0
    } else {
        1 + first_index(s.drop_first(), wanted)
    }
}

/// `first_index` is the least place whose element meets `wanted`.
pub proof fn lemma_first_index<A>(s: Seq<A>, wanted: spec_fn(A) -> bool)
    ensures
        0 <= first_index(s, wanted) <= s.len(),
        first_index(s, wanted) < s.len() ==> wanted(s[first_index(s, wanted)]),
        forall|i: int| 0 <= i < first_index(s, wanted) ==> !wanted(#[trigger] s[i]),
        first_index(s, wanted) < s.len() <==> exists|i: int| 0 <= i < s.len() && wanted(s[i]),
    decreases s.len(),
{
    if s.len() > 0 && !wanted(s[0]) {
        let rest = s.drop_first();
        lemma_first_index(rest, wanted);
        assert forall|i: int| 0 <= i < first_index(s, wanted) implies !wanted(#[trigger] s[i]) by {
            if i > 0 {
                assert(rest[i - 1] == s[i]);
            }
        }
        if exists|i: int| 0 <= i < s.len() && wanted(s[i]) {
            let i = choose|i: int| 0 <= i < s.len() && wanted(s[i]);
            assert(wanted(rest[i - 1]));
        }
        if first_index(rest, wanted) < rest.len() {
            assert(wanted(s[first_index(s, wanted)]));
        }
    } else if s.len() > 0 {
        assert(wanted(s[0]));
    }
}

} // verus!
