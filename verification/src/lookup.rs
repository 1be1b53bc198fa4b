//! First-match search in an ordered list of hostnames.
//!
//! Both the host table and the certificate store are ordered lists keyed by
//! hostname. A lookup returns the first entry whose hostname equals the name
//! asked for, exactly and case-sensitively; later entries of the same name are
//! never returned.

use vstd::prelude::*;

verus! {

/// Whether `i` is the index of the first occurrence of `hostname` in `hostnames`.
pub open spec fn is_first_match(hostnames: Seq<Seq<char>>, hostname: Seq<char>, i: int) -> bool {
    &&& 0 <= i < hostnames.len()
    &&& hostnames[i] == hostname
    &&& forall|j: int| 0 <= j < i ==> hostnames[j] != hostname
}

/// The index of the first occurrence of `hostname` in `hostnames`, if there is one.
pub open spec fn first_match(hostnames: Seq<Seq<char>>, hostname: Seq<char>) -> Option<int> {
    if exists|i: int| is_first_match(hostnames, hostname, i) {
        Some(choose|i: int| is_first_match(hostnames, hostname, i))
    } else {
        None
    }
}

/// A hostname has at most one first occurrence.
pub proof fn lemma_first_match_is_unique(
    hostnames: Seq<Seq<char>>,
    hostname: Seq<char>,
    i: int,
    j: int,
)
    requires
        is_first_match(hostnames, hostname, i),
        is_first_match(hostnames, hostname, j),
    ensures
        i == j,
{
    if i < j {
        assert(hostnames[i] != hostname);
    } else if j < i {
        assert(hostnames[j] != hostname);
    }
}

/// The first occurrence found by a scan is the one that `first_match` names.
pub proof fn lemma_first_match_found(hostnames: Seq<Seq<char>>, hostname: Seq<char>, i: int)
    requires
        is_first_match(hostnames, hostname, i),
    ensures
        first_match(hostnames, hostname) == Some(i),
{
    let k = choose|k: int| is_first_match(hostnames, hostname, k);
    lemma_first_match_is_unique(hostnames, hostname, i, k);
}

/// A hostname that occurs nowhere has no first occurrence.
pub proof fn lemma_first_match_absent(hostnames: Seq<Seq<char>>, hostname: Seq<char>)
    requires
        forall|j: int| 0 <= j < hostnames.len() ==> hostnames[j] != hostname,
    ensures
        first_match(hostnames, hostname) is None,
{
}

/// A hostname has a first occurrence exactly when it occurs at all, and that
/// occurrence lies in the list, holds the hostname, and has none before it.
pub proof fn lemma_first_match_iff_present(hostnames: Seq<Seq<char>>, hostname: Seq<char>)
    ensures
        first_match(hostnames, hostname) is Some <==> hostnames.contains(hostname),
        first_match(hostnames, hostname) matches Some(i) ==> is_first_match(
            hostnames,
            hostname,
            i,
        ),
{
    if hostnames.contains(hostname) {
        let k = choose|k: int| 0 <= k < hostnames.len() && hostnames[k] == hostname;
        lemma_earliest_occurrence(hostnames, hostname, k);
    }
}

/// An occurrence at `k` implies a first occurrence at or before `k`.
proof fn lemma_earliest_occurrence(hostnames: Seq<Seq<char>>, hostname: Seq<char>, k: int)
    requires
        0 <= k < hostnames.len(),
        hostnames[k] == hostname,
    ensures
        exists|i: int| 0 <= i <= k && is_first_match(hostnames, hostname, i),
    decreases k,
{
    if forall|j: int| 0 <= j < k ==> hostnames[j] != hostname {
        assert(is_first_match(hostnames, hostname, k));
    } else {
        let j = choose|j: int| 0 <= j < k && hostnames[j] == hostname;
        lemma_earliest_occurrence(hostnames, hostname, j);
    }
}

} // verus!
