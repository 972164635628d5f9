use vstd::prelude::*;
use crate::package::Package;
use crate::text::{chars_of, contains_chars, contains_seq};

verus! {

/// What `str::to_lowercase` makes of a string.
pub uninterp spec fn lowercase_of(s: Seq<char>) -> Seq<char>;

/// Relies on `str::to_lowercase`: its result depends on the characters of `s` alone.
#[verifier::external_body]
fn to_lowercase(s: &str) -> (r: String)
    ensures
        r@ == lowercase_of(s@),
{
    s.to_lowercase()
}

/// The package's name contains `needle`.
pub open spec fn name_matches(p: Package, needle: Seq<char>) -> bool {
    contains_seq(p.name@, needle)
}

/// The records of `packages` whose name contains `needle`, in the order given.
pub open spec fn matching(packages: Seq<Package>, needle: Seq<char>) -> Seq<Package>
    decreases packages.len(),
{
    if packages.len() == 0 {
        Seq::empty()
    } else {
        let rest = matching(packages.drop_last(), needle);
        if name_matches(packages.last(), needle) {
            rest.push(packages.last())
        } else {
            rest
        }
    }
}

/// Keeps the records whose name contains `needle`, in the order given.
pub fn filter_by_name(packages: &Vec<Package>, needle: &str) -> (r: Vec<Package>)
    ensures
        r@ == matching(packages@, needle@),
{
    let needle_chars = chars_of(needle);
    let mut r: Vec<Package> = Vec::new();
    let mut i: usize = 0;
    while i < packages.len()
        invariant
            i <= packages.len(),
            needle_chars@ == needle@,
            r@ == matching(packages@.take(i as int), needle@),
        decreases packages.len() - i,
    {
        let name_chars = chars_of(packages[i].name.as_str());
        if contains_chars(&name_chars, &needle_chars) {
            r.push(packages[i].duplicate());
        }
        assert(packages@.take(i + 1).drop_last() =~= packages@.take(i as int));
        i = i + 1;
    }
    assert(packages@.take(packages.len() as int) =~= packages@);
    r
}

/// Searches `packages` for those whose name contains the lower-cased `query`.
pub fn search(packages: &Vec<Package>, query: &str) -> (r: Vec<Package>)
    ensures
        r@ == matching(packages@, lowercase_of(query@)),
{
    let needle = to_lowercase(query);
    filter_by_name(packages, needle.as_str())
}

/// Every record that a search keeps comes from the collection, and its name holds the needle.
pub proof fn lemma_matching_only_matches(packages: Seq<Package>, needle: Seq<char>)
    ensures
        forall|i: int|
            0 <= i < matching(packages, needle).len() ==> name_matches(
                #[trigger] matching(packages, needle)[i],
                needle,
            ) && packages.contains(matching(packages, needle)[i]),
    decreases packages.len(),
{
    if packages.len() > 0 {
        let rest = packages.drop_last();
        lemma_matching_only_matches(rest, needle);
        assert forall|i: int| 0 <= i < matching(packages, needle).len() implies name_matches(
            #[trigger] matching(packages, needle)[i],
            needle,
        ) && packages.contains(matching(packages, needle)[i]) by {
            let m = matching(packages, needle);
            if i < matching(rest, needle).len() {
                assert(m[i] == matching(rest, needle)[i]);
                let j = choose|j: int| 0 <= j < rest.len() && rest[j] == m[i];
                assert(packages[j] == m[i]);
            } else {
                assert(m[i] == packages.last());
                assert(packages[packages.len() - 1] == m[i]);
            }
        }
    }
}

/// Every record of the collection whose name holds the needle is kept by a search.
pub proof fn lemma_matching_keeps_matches(packages: Seq<Package>, needle: Seq<char>)
    ensures
        forall|i: int|
            0 <= i < packages.len() && name_matches(#[trigger] packages[i], needle)
                ==> matching(packages, needle).contains(packages[i]),
    decreases packages.len(),
{
    if packages.len() > 0 {
        let rest = packages.drop_last();
        lemma_matching_keeps_matches(rest, needle);
        assert forall|i: int|
            0 <= i < packages.len() && name_matches(#[trigger] packages[i], needle)
            implies matching(packages, needle).contains(packages[i]) by {
            let m = matching(packages, needle);
            if i < rest.len() {
                assert(rest[i] == packages[i]);
                let j = choose|j: int| 0 <= j < matching(rest, needle).len()
                    && matching(rest, needle)[j] == rest[i];
                assert(m[j] == packages[i]);
            } else {
                assert(m[m.len() - 1] == packages[i]);
            }
        }
    }
}

/// Searching an empty collection finds nothing.
pub proof fn lemma_search_empty(needle: Seq<char>)
    ensures
        matching(Seq::<Package>::empty(), needle) == Seq::<Package>::empty(),
{
}

} // verus!
