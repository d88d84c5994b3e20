use vstd::prelude::*;

use crate::error::ScrapeError;

verus! {

/// Fail-fast, all-or-nothing aggregation of per-URL results: the ordered
/// bodies when every fetch succeeded, else the first error in input order
/// (the others are discarded).
pub open spec fn spec_aggregate(results: Seq<Result<String, ScrapeError>>) -> Result<
    Seq<String>,
    ScrapeError,
>
    decreases results.len(),
{
    if results.len() == 0 {
        Ok(Seq::empty())
    } else {
        match results[0] {
            Err(e) => Err(e),
            Ok(body) => match spec_aggregate(results.drop_first()) {
                Ok(rest) => Ok(seq![body] + rest),
                Err(e) => Err(e),
            },
        }
    }
}

/// Aggregates a batch's per-URL results exactly as `spec_aggregate` states
/// it: all bodies in input order, or the first error alone.
pub fn aggregate(results: Vec<Result<String, ScrapeError>>) -> (r: Result<Vec<String>, ScrapeError>)
    ensures
        r matches Ok(bodies) ==> spec_aggregate(results@) == Ok::<Seq<String>, ScrapeError>(
            bodies@,
        ),
        r matches Err(e) ==> spec_aggregate(results@) == Err::<Seq<String>, ScrapeError>(e),
{
    let ghost all = results@;
    let mut rest = results;
    let mut bodies: Vec<String> = Vec::new();
    loop
        invariant
            all == results@,
            bodies@.len() + rest@.len() == all.len(),
            spec_aggregate(all) == (match spec_aggregate(rest@) {
                Ok(bs) => Ok::<Seq<String>, ScrapeError>(bodies@ + bs),
                Err(e) => Err::<Seq<String>, ScrapeError>(e),
            }),
        decreases rest@.len(),
    {
        if rest.len() == 0 {
            proof {
                assert(bodies@ + Seq::<String>::empty() =~= bodies@);
            }
            return Ok(bodies);
        }
        let ghost pre = rest@;
        let next = rest.remove(0);
        proof {
            assert(rest@ =~= pre.drop_first());
        }
        match next {
            Err(e) => {
                return Err(e);
            },
            Ok(body) => {
                proof {
                    if spec_aggregate(rest@) is Ok {
                        let bs = spec_aggregate(rest@)->Ok_0;
                        assert(bodies@ + (seq![body] + bs) =~= bodies@.push(body) + bs);
                    }
                }
                bodies.push(body);
            },
        }
    }
}

/// The batch contract in full: it succeeds exactly when every constituent
/// fetch did; on success there are as many bodies as inputs and the body at
/// each position belongs to the input at that position (input order, not
/// completion order); on failure the surfaced error is a constituent's error,
/// and the first one — every result before it was a success.
pub proof fn lemma_aggregate_fail_fast(results: Seq<Result<String, ScrapeError>>)
    ensures
        spec_aggregate(results) is Ok <==> (forall|i: int|
            0 <= i < results.len() ==> results[i] is Ok),
        spec_aggregate(results) matches Ok(bodies) ==> bodies.len() == results.len() && (forall|
            i: int,
        |
            0 <= i < results.len() ==> bodies[i] == (#[trigger] results[i])->Ok_0),
        spec_aggregate(results) matches Err(e) ==> exists|j: int|
            0 <= j < results.len() && #[trigger] results[j] == Err::<String, ScrapeError>(e) && (
            forall|i: int| 0 <= i < j ==> results[i] is Ok),
    decreases results.len(),
{
    if results.len() > 0 {
        let rest = results.drop_first();
        lemma_aggregate_fail_fast(rest);
        assert(forall|i: int| 0 <= i < rest.len() ==> rest[i] == results[i + 1]);
        match results[0] {
            Err(e0) => {
                assert(!(results[0] is Ok));
                assert(0 <= 0 < results.len() && results[0] == Err::<String, ScrapeError>(e0) && (
                forall|i: int| 0 <= i < 0 ==> results[i] is Ok));
            },
            Ok(b0) => {
                match spec_aggregate(rest) {
                    Ok(bs) => {
                        assert forall|i: int| 0 <= i < results.len() implies results[i] is Ok by {
                            if i > 0 {
                                assert(rest[i - 1] is Ok);
                            }
                        }
                        let bodies = seq![b0] + bs;
                        assert(spec_aggregate(results) == Ok::<Seq<String>, ScrapeError>(bodies));
                        assert forall|i: int|
                            0 <= i < results.len() implies bodies[i] == (
                        #[trigger] results[i])->Ok_0 by {
                            if i > 0 {
                                assert(bodies[i] == bs[i - 1]);
                                assert(rest[i - 1] == results[i]);
                            }
                        }
                    },
                    Err(e) => {
                        let j = choose|j: int|
                            0 <= j < rest.len() && #[trigger] rest[j] == Err::<String, ScrapeError>(
                                e,
                            ) && (forall|i: int| 0 <= i < j ==> rest[i] is Ok);
                        assert(results[j + 1] == Err::<String, ScrapeError>(e));
                        assert(!(results[j + 1] is Ok));
                        assert forall|i: int| 0 <= i < j + 1 implies results[i] is Ok by {
                            if i > 0 {
                                assert(rest[i - 1] is Ok);
                            }
                        }
                        assert(0 <= j + 1 < results.len() && results[j + 1] == Err::<
                            String,
                            ScrapeError,
                        >(e) && (forall|i: int| 0 <= i < j + 1 ==> results[i] is Ok));
                    },
                }
            },
        }
    }
}

} // verus!
