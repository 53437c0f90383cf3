//! The inventory orchestrator: applies the per-backend fetch-failure
//! policy, merges the per-kind runs, and sorts the combined records by
//! identifier — the single global ordering guarantee of the whole tool.

use vstd::prelude::*;

use crate::config::ServerOpt;
use crate::error::{ErrorKind, InventoryError};
use crate::key::Key;
use crate::text::{lemma_lex_le_refl, lemma_lex_le_total, lemma_lex_le_trans, lex_le, str_lex_le};

verus! {

broadcast use vstd::seq_lib::group_to_multiset_ensures;

/// What a backend does when fetching one key's attributes fails: abort the
/// whole run, or log, skip the record and go on.
#[derive(Clone, Copy, Debug, PartialEq, Eq, Structural)]
pub enum FetchPolicy {
    Fatal,
    Skip,
}

/// The policy a backend kind carries.
pub open spec fn spec_fetch_policy(server: ServerOpt) -> FetchPolicy {
    match server {
        ServerOpt::Kmip(_) => FetchPolicy::Fatal,
        ServerOpt::Pkcs11(_) => FetchPolicy::Skip,
    }
}

/// Per-key fetch failures are fatal on the KMIP path and skippable on the
/// hardware-token path. The asymmetry is deliberate and preserved.
pub fn fetch_failure_policy(server: &ServerOpt) -> (r: FetchPolicy)
    ensures
        r == spec_fetch_policy(*server),
{
    match server {
        ServerOpt::Kmip(_) => FetchPolicy::Fatal,
        ServerOpt::Pkcs11(_) => FetchPolicy::Skip,
    }
}

/// The successfully fetched records, in order.
pub open spec fn oks_of(s: Seq<Result<Key, String>>) -> Seq<Key>
    decreases s.len(),
{
    if s.len() == 0 {
        Seq::empty()
    } else {
        match s[0] {
            Ok(k) => seq![k] + oks_of(s.drop_first()),
            Err(_) => oks_of(s.drop_first()),
        }
    }
}

/// The message of the first fetch failure, if any.
pub open spec fn first_err_of(s: Seq<Result<Key, String>>) -> Option<Seq<char>>
    decreases s.len(),
{
    if s.len() == 0 {
        None
    } else {
        match s[0] {
            Ok(_) => first_err_of(s.drop_first()),
            Err(m) => Some(m@),
        }
    }
}

/// Applies the fetch-failure policy to one kind-run of fetch outcomes:
/// under `Fatal` the first failure aborts with a fetch error, under `Skip`
/// failures are dropped and the successes kept in order.
pub fn merge_fetch_results(policy: FetchPolicy, results: Vec<Result<Key, String>>) -> (r: Result<
    Vec<Key>,
    InventoryError,
>)
    ensures
        policy == FetchPolicy::Skip ==> (r matches Ok(v) && v@ == oks_of(results@)),
        policy == FetchPolicy::Fatal ==> match first_err_of(results@) {
            Some(m) => r matches Err(e) && e.kind == ErrorKind::Fetch && e.msg@ == m,
            None => r matches Ok(v) && v@ == oks_of(results@),
        },
{
    let ghost orig = results@;
    let mut rest = results;
    let mut out: Vec<Key> = Vec::new();
    while rest.len() > 0
        invariant
            orig == results@,
            oks_of(orig) == out@ + oks_of(rest@),
            policy == FetchPolicy::Fatal ==> first_err_of(orig) == first_err_of(rest@),
        decreases rest.len(),
    {
        let ghost before = rest@;
        let x = rest.remove(0);
        proof {
            assert(rest@ =~= before.drop_first());
        }
        match x {
            Ok(k) => {
                proof {
                    assert(before[0] == Ok::<Key, String>(k));
                    assert(oks_of(before) == seq![k] + oks_of(before.drop_first()));
                    assert(first_err_of(before) == first_err_of(before.drop_first()));
                }
                out.push(k);
                proof {
                    assert(out@ + oks_of(rest@) =~= oks_of(orig));
                }
            },
            Err(m) => {
                proof {
                    assert(before[0] == Err::<Key, String>(m));
                    assert(oks_of(before) == oks_of(before.drop_first()));
                    assert(first_err_of(before) == Some(m@));
                }
                if policy == FetchPolicy::Fatal {
                    proof {
                        assert(first_err_of(orig) == Some(m@));
                    }
                    return Err(InventoryError::new(ErrorKind::Fetch, m));
                }
            },
        }
    }
    proof {
        assert(oks_of(rest@) == Seq::<Key>::empty());
        assert(first_err_of(rest@) is None);
        assert(out@ + oks_of(rest@) =~= out@);
    }
    Ok(out)
}

/// Whether `s` is ordered by record identifier, ascending.
pub open spec fn sorted_by_id(s: Seq<Key>) -> bool {
    forall|i: int, j: int| 0 <= i < j < s.len() ==> lex_le(s[i]@.id, s[j]@.id)
}

/// Index of a record whose identifier is no greater than any other's.
fn index_of_min_id(v: &Vec<Key>) -> (r: usize)
    requires
        v@.len() > 0,
    ensures
        r < v@.len(),
        forall|j: int| 0 <= j < v@.len() ==> lex_le(v@[r as int]@.id, v@[j]@.id),
{
    let mut best: usize = 0;
    let mut i: usize = 1;
    proof {
        lemma_lex_le_refl(v@[0]@.id);
    }
    while i < v.len()
        invariant
            best < i <= v@.len(),
            forall|j: int| 0 <= j < i ==> lex_le(v@[best as int]@.id, v@[j]@.id),
        decreases v@.len() - i,
    {
        if str_lex_le(v[i].id.as_str(), v[best].id.as_str()) {
            proof {
                assert forall|j: int| 0 <= j < i + 1 implies lex_le(
                    v@[i as int]@.id,
                    v@[j]@.id,
                ) by {
                    if j < i {
                        lemma_lex_le_trans(v@[i as int]@.id, v@[best as int]@.id, v@[j]@.id);
                    } else {
                        lemma_lex_le_refl(v@[i as int]@.id);
                    }
                }
            }
            best = i;
        } else {
            proof {
                lemma_lex_le_total(v@[i as int]@.id, v@[best as int]@.id);
            }
        }
        i += 1;
    }
    best
}

/// Sorts records by identifier in lexicographic ascending order, keeping
/// exactly the given records.
pub fn sort_keys(keys: Vec<Key>) -> (r: Vec<Key>)
    ensures
        sorted_by_id(r@),
        r@.to_multiset() == keys@.to_multiset(),
{
    let ghost orig = keys@;
    let mut rest = keys;
    let mut out: Vec<Key> = Vec::new();
    while rest.len() > 0
        invariant
            orig == keys@,
            out@.to_multiset().add(rest@.to_multiset()) == orig.to_multiset(),
            sorted_by_id(out@),
            forall|i: int, j: int|
                0 <= i < out@.len() && 0 <= j < rest@.len() ==> lex_le(
                    out@[i]@.id,
                    rest@[j]@.id,
                ),
        decreases rest.len(),
    {
        let m = index_of_min_id(&rest);
        let ghost before = rest@;
        let k = rest.remove(m);
        out.push(k);
        proof {
            assert(rest@.to_multiset() =~= before.to_multiset().remove(k));
            assert(before.to_multiset().count(k) > 0);
            assert(out@.to_multiset().add(rest@.to_multiset()) =~= orig.to_multiset());
            assert(forall|j: int|
                0 <= j < rest@.len() ==> #[trigger] rest@[j]@.id == (if j < m {
                    before[j]@.id
                } else {
                    before[j + 1]@.id
                }));
        }
    }
    proof {
        assert(out@.to_multiset().add(rest@.to_multiset()) =~= out@.to_multiset());
    }
    out
}

/// Builds the final inventory from the two kind-runs, private first: each
/// run goes through the backend's fetch-failure policy, the survivors are
/// concatenated and sorted by identifier. No de-duplication: a repeated
/// identifier appears repeatedly.
pub fn assemble_inventory(
    policy: FetchPolicy,
    private_results: Vec<Result<Key, String>>,
    public_results: Vec<Result<Key, String>>,
) -> (r: Result<Vec<Key>, InventoryError>)
    ensures
        policy == FetchPolicy::Skip ==> (r matches Ok(v) && sorted_by_id(v@)
            && v@.to_multiset() == (oks_of(private_results@) + oks_of(
            public_results@,
        )).to_multiset()),
        policy == FetchPolicy::Fatal ==> match first_err_of(private_results@) {
            Some(m) => r matches Err(e) && e.kind == ErrorKind::Fetch && e.msg@ == m,
            None => match first_err_of(public_results@) {
                Some(m) => r matches Err(e) && e.kind == ErrorKind::Fetch && e.msg@ == m,
                None => r matches Ok(v) && sorted_by_id(v@) && v@.to_multiset() == (oks_of(
                    private_results@,
                ) + oks_of(public_results@)).to_multiset(),
            },
        },
{
    let mut all = match merge_fetch_results(policy, private_results) {
        Ok(v) => v,
        Err(e) => {
            return Err(e);
        },
    };
    let mut pub_keys = match merge_fetch_results(policy, public_results) {
        Ok(v) => v,
        Err(e) => {
            return Err(e);
        },
    };
    let ghost left = all@;
    let ghost right = pub_keys@;
    all.append(&mut pub_keys);
    proof {
        assert(all@ == left + right);
    }
    Ok(sort_keys(all))
}

} // verus!
