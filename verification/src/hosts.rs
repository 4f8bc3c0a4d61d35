//! Lists of hostnames: membership, removal of repetitions and set
//! difference on `Vec<String>`.

use vstd::prelude::*;
use crate::seqs::{distinct, excluding, lemma_distinct, lemma_excluding};

verus! {

/// Whether `host` occurs in `list`.
pub fn contains_host(list: &Vec<String>, host: &String) -> (found: bool)
    ensures
        found == list.deep_view().contains(host@),
{
    let mut i: usize = 0;
    while i < list.len()
        invariant
            i <= list.len(),
            forall|k: int| 0 <= k < i ==> list.deep_view()[k] != host@,
        decreases list.len() - i,
    {
        if list[i] == *host {
            assert(list.deep_view()[i as int] == host@);
            return true;
        }
        i += 1;
    }
    false
}

/// The hostnames of `list`, each once, in the order in which they first
/// occur.
pub fn distinct_hosts(list: &Vec<String>) -> (out: Vec<String>)
    ensures
        out.deep_view() == distinct(list.deep_view()),
        out.deep_view().no_duplicates(),
        out.deep_view().to_set() == list.deep_view().to_set(),
{
    let mut out: Vec<String> = Vec::new();
    let mut i: usize = 0;
    assert(list.deep_view().take(0) =~= Seq::<Seq<char>>::empty());
    assert(out.deep_view() =~= Seq::<Seq<char>>::empty());
    while i < list.len()
        invariant
            i <= list.len(),
            out.deep_view() == distinct(list.deep_view().take(i as int)),
        decreases list.len() - i,
    {
        let ghost before = out.deep_view();
        let ghost prefix = list.deep_view().take(i as int + 1);
        assert(prefix.drop_last() =~= list.deep_view().take(i as int));
        assert(prefix.last() == list[i as int]@);
        if !contains_host(&out, &list[i]) {
            out.push(list[i].clone());
            assert(out.deep_view() =~= before.push(list[i as int]@));
        }
        i += 1;
    }
    assert(list.deep_view().take(i as int) =~= list.deep_view());
    proof {
        lemma_distinct(list.deep_view());
    }
    out
}

/// The hostnames of `list` that `banned` lacks, in their order in `list`.
pub fn hosts_excluding(list: &Vec<String>, banned: &Vec<String>) -> (out: Vec<String>)
    ensures
        out.deep_view() == excluding(list.deep_view(), banned.deep_view()),
        out.deep_view().to_set() == list.deep_view().to_set().difference(
            banned.deep_view().to_set(),
        ),
        list.deep_view().no_duplicates() ==> out.deep_view().no_duplicates(),
{
    let mut out: Vec<String> = Vec::new();
    let mut i: usize = 0;
    proof {
        reveal(Seq::filter);
    }
    assert(list.deep_view().take(0) =~= Seq::<Seq<char>>::empty());
    assert(out.deep_view() =~= Seq::<Seq<char>>::empty());
    while i < list.len()
        invariant
            i <= list.len(),
            out.deep_view() == excluding(list.deep_view().take(i as int), banned.deep_view()),
        decreases list.len() - i,
    {
        let ghost before = out.deep_view();
        let ghost prefix = list.deep_view().take(i as int + 1);
        proof {
            reveal(Seq::filter);
        }
        assert(prefix.drop_last() =~= list.deep_view().take(i as int));
        assert(prefix.last() == list[i as int]@);
        if !contains_host(banned, &list[i]) {
            out.push(list[i].clone());
            assert(out.deep_view() =~= before.push(list[i as int]@));
        }
        i += 1;
    }
    assert(list.deep_view().take(i as int) =~= list.deep_view());
    proof {
        lemma_excluding(list.deep_view(), banned.deep_view());
    }
    out
}

} // verus!
