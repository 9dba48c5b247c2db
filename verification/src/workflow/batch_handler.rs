use vstd::prelude::*;

use crate::model::WorkflowError;

verus! {

/// A message of a batch that is to be delivered again.
#[derive(Debug)]
pub struct BatchItemFailure {
    pub item_identifier: String,
}

/// The answer to a batch of queue messages: the messages that failed.
#[derive(Debug)]
pub struct SqsBatchResponse {
    pub batch_item_failures: Vec<BatchItemFailure>,
}

/// A message failed if its workflow ended in an error; a suspended workflow
/// did not fail.
pub open spec fn is_failure<Response>(result: Result<Response, WorkflowError>) -> bool {
    result matches Err(WorkflowError::Error(_))
}

/// The ids of the first `n` messages whose results are failures, in order.
pub open spec fn failed_ids<I, Response>(
    ids: Seq<I>,
    results: Seq<Result<Response, WorkflowError>>,
    n: int,
) -> Seq<I>
    decreases n,
{
    if n <= 0 {
        Seq::empty()
    } else if is_failure(results[n - 1]) {
        failed_ids(ids, results, n - 1).push(ids[n - 1])
    } else {
        failed_ids(ids, results, n - 1)
    }
}

/// The number of messages paired with a result.
pub open spec fn paired_len(a: nat, b: nat) -> int {
    if a <= b {
        a as int
    } else {
        b as int
    }
}

/// The identifiers of a list of failures.
pub open spec fn identifiers(failures: Seq<BatchItemFailure>) -> Seq<String> {
    failures.map_values(|f: BatchItemFailure| f.item_identifier)
}

/// The id of a message, or the empty id where it has none.
pub open spec fn message_id_or_default(id: Option<String>) -> Seq<char> {
    match id {
        Some(s) => s@,
        None => Seq::empty(),
    }
}

/// Collect the message ids of all failed items, pairing the ids and the
/// results in order. Suspended workflows are not failures.
pub fn collect_batch_failures<Response>(
    message_ids: &Vec<String>,
    results: Vec<Result<Response, WorkflowError>>,
) -> (failures: Vec<BatchItemFailure>)
    ensures
        identifiers(failures@) == failed_ids(
            message_ids@,
            results@,
            paired_len(message_ids@.len(), results@.len()),
        ),
        ({
            let n = paired_len(message_ids@.len(), results@.len());
            let reported = identifiers(failures@);
            let ids = message_ids@;
            let results = results@;
            &&& forall|j: int|
                0 <= j < n && ((#[trigger] results[j]) matches Err(WorkflowError::Error(_))) ==> reported.contains(ids[j])
            &&& exists|positions: Seq<int>|
                {
                    &&& positions.len() == reported.len()
                    &&& forall|k: int|
                        0 <= k < positions.len() ==> 0 <= #[trigger] positions[k] < n && (results[positions[k]] matches Err(
                            WorkflowError::Error(_),
                        )) && reported[k] == ids[positions[k]]
                    &&& forall|k1: int, k2: int|
                        0 <= k1 < k2 < positions.len() ==> #[trigger] positions[k1] < #[trigger] positions[k2]
                    &&& forall|j: int|
                        0 <= j < n && ((#[trigger] results[j]) matches Err(WorkflowError::Error(_))) ==> positions.contains(j)
                }
        }),
{
    let n = if message_ids.len() <= results.len() {
        message_ids.len()
    } else {
        results.len()
    };
    let mut failures: Vec<BatchItemFailure> = Vec::new();
    let mut i: usize = 0;
    while i < n
        invariant
            n == paired_len(message_ids@.len(), results@.len()),
            0 <= i <= n,
            identifiers(failures@) == failed_ids(message_ids@, results@, i as int),
        decreases n - i,
    {
        let failed = match &results[i] {
            Ok(_) => false,
            Err(WorkflowError::Suspended) => false,
            Err(WorkflowError::Error(_)) => true,
        };
        if failed {
            let ghost before = failures@;
            failures.push(BatchItemFailure { item_identifier: message_ids[i].clone() });
            proof {
                assert(identifiers(failures@) =~= identifiers(before).push(message_ids@[i as int]));
            }
        }
        i = i + 1;
    }
    proof {
        law_reported_ids_are_the_errors_in_order(message_ids@, results@, n as int);
    }
    failures
}

/// The batch response for messages with the given ids (a message without an
/// id counts as the empty id) and their results.
pub fn batch_response<Response>(
    message_ids: Vec<Option<String>>,
    results: Vec<Result<Response, WorkflowError>>,
) -> (response: SqsBatchResponse)
    ensures
        identifiers(response.batch_item_failures@).map_values(|s: String| s@) == failed_ids(
            message_ids@.map_values(|o: Option<String>| message_id_or_default(o)),
            results@,
            paired_len(message_ids@.len(), results@.len()),
        ),
        forall|j: int|
            0 <= j < paired_len(message_ids@.len(), results@.len()) && ((#[trigger] results@[j]) matches Err(
                WorkflowError::Error(_),
            )) ==> identifiers(response.batch_item_failures@).map_values(|s: String| s@).contains(
                message_id_or_default(message_ids@[j]),
            ),
{
    let mut ids: Vec<String> = Vec::new();
    let mut i: usize = 0;
    while i < message_ids.len()
        invariant
            0 <= i <= message_ids@.len(),
            ids@.len() == i,
            forall|j: int| 0 <= j < i ==> (#[trigger] ids@[j])@ == message_id_or_default(message_ids@[j]),
        decreases message_ids@.len() - i,
    {
        let id = match &message_ids[i] {
            Some(id) => id.clone(),
            None => String::new(),
        };
        ids.push(id);
        i = i + 1;
    }
    let ghost all_results = results@;
    let failures = collect_batch_failures(&ids, results);
    proof {
        let n = paired_len(message_ids@.len(), all_results.len());
        let view = |s: String| s@;
        assert(ids@.map_values(view) =~= message_ids@.map_values(
            |o: Option<String>| message_id_or_default(o),
        ));
        lemma_failed_ids_map(ids@, all_results, n, view);
        let renamed = message_ids@.map_values(|o: Option<String>| message_id_or_default(o));
        law_reported_ids_are_the_errors_in_order(renamed, all_results, n);
        assert forall|j: int| 0 <= j < n && ((#[trigger] all_results[j]) matches Err(WorkflowError::Error(_))) implies failed_ids(
            renamed,
            all_results,
            n,
        ).contains(message_id_or_default(message_ids@[j])) by {
            assert(renamed[j] == message_id_or_default(message_ids@[j]));
        }
    }
    SqsBatchResponse { batch_item_failures: failures }
}

/// Selecting the failed ids commutes with renaming the ids.
proof fn lemma_failed_ids_map<I, J, Response>(
    ids: Seq<I>,
    results: Seq<Result<Response, WorkflowError>>,
    n: int,
    f: spec_fn(I) -> J,
)
    requires
        n <= ids.len(),
    ensures
        failed_ids(ids.map_values(f), results, n) == failed_ids(ids, results, n).map_values(f),
    decreases n,
{
    if n > 0 {
        lemma_failed_ids_map(ids, results, n - 1, f);
        assert(failed_ids(ids.map_values(f), results, n) =~= failed_ids(ids, results, n).map_values(f));
    } else {
        assert(failed_ids(ids, results, n).map_values(f) =~= Seq::<J>::empty());
    }
}

/// The result of a message once its response was published: a response whose
/// publication failed makes the message fail with the publication's error.
/// The publication outcome plays no part for a workflow that did not respond.
pub fn after_publish<Response>(
    result: Result<Response, WorkflowError>,
    published: Result<(), WorkflowError>,
) -> (r: Result<Response, WorkflowError>)
    ensures
        r == match result {
            Ok(response) => match published {
                Ok(()) => Ok(response),
                Err(e) => Err(e),
            },
            Err(e) => Err(e),
        },
{
    match result {
        Ok(response) => match published {
            Ok(()) => Ok(response),
            Err(e) => Err(e),
        },
        Err(e) => Err(e),
    }
}

/// A message is reported as failed exactly when its workflow ended in an
/// error: every such message's id is reported, and every reported id is the
/// id of such a message. In particular a suspended workflow is never reported.
pub proof fn law_failures_are_exactly_errors<I, Response>(
    ids: Seq<I>,
    results: Seq<Result<Response, WorkflowError>>,
    n: int,
)
    requires
        0 <= n <= ids.len(),
        n <= results.len(),
    ensures
        forall|j: int| 0 <= j < n && ((#[trigger] results[j]) matches Err(WorkflowError::Error(_))) ==> failed_ids(ids, results, n).contains(
            ids[j],
        ),
        forall|x: I|
            #[trigger] failed_ids(ids, results, n).contains(x) ==> exists|j: int|
                0 <= j < n && ((#[trigger] results[j]) matches Err(WorkflowError::Error(_))) && ids[j] == x,
        failed_ids(ids, results, n).len() <= n,
    decreases n,
{
    if n > 0 {
        law_failures_are_exactly_errors(ids, results, n - 1);
        let prev = failed_ids(ids, results, n - 1);
        let cur = failed_ids(ids, results, n);
        assert forall|j: int| 0 <= j < n && ((#[trigger] results[j]) matches Err(WorkflowError::Error(_))) implies cur.contains(ids[j]) by {
            if j < n - 1 {
                let k = choose|k: int| 0 <= k < prev.len() && prev[k] == ids[j];
                assert(cur[k] == prev[k]);
            } else {
                assert(cur[cur.len() - 1] == ids[j]);
            }
        }
        assert forall|x: I| #[trigger] cur.contains(x) implies exists|j: int|
            0 <= j < n && ((#[trigger] results[j]) matches Err(WorkflowError::Error(_))) && ids[j] == x by {
            let k = choose|k: int| 0 <= k < cur.len() && cur[k] == x;
            if k < prev.len() {
                assert(prev[k] == x);
                assert(prev.contains(x));
            } else {
                assert((results[n - 1] matches Err(WorkflowError::Error(_))) && ids[n - 1] == x);
            }
        }
    }
}

/// A batch in which every workflow responded or suspended reports no failure.
pub proof fn law_no_errors_no_failures<I, Response>(
    ids: Seq<I>,
    results: Seq<Result<Response, WorkflowError>>,
    n: int,
)
    requires
        forall|j: int| 0 <= j < n ==> !((#[trigger] results[j]) matches Err(WorkflowError::Error(_))),
    ensures
        failed_ids(ids, results, n) == Seq::<I>::empty(),
    decreases n,
{
    if n > 0 {
        law_no_errors_no_failures(ids, results, n - 1);
    }
}

/// The failures reported for a batch are exactly its messages whose workflow
/// ended in an error, whatever that error is (a state, service or other
/// error), in message order: suspended and successful workflows are never
/// reported, and no failed message is left out.
pub proof fn law_reported_ids_are_the_errors_in_order<I, Response>(
    ids: Seq<I>,
    results: Seq<Result<Response, WorkflowError>>,
    n: int,
)
    requires
        0 <= n <= ids.len(),
        n <= results.len(),
    ensures
        ({
            let reported = failed_ids(ids, results, n);
            &&& forall|j: int|
                0 <= j < n && ((#[trigger] results[j]) matches Err(WorkflowError::Error(_))) ==> reported.contains(ids[j])
            &&& exists|positions: Seq<int>|
                {
                    &&& positions.len() == reported.len()
                    &&& forall|k: int|
                        0 <= k < positions.len() ==> 0 <= #[trigger] positions[k] < n && (results[positions[k]] matches Err(
                            WorkflowError::Error(_),
                        )) && reported[k] == ids[positions[k]]
                    &&& forall|k1: int, k2: int|
                        0 <= k1 < k2 < positions.len() ==> #[trigger] positions[k1] < #[trigger] positions[k2]
                    &&& forall|j: int|
                        0 <= j < n && ((#[trigger] results[j]) matches Err(WorkflowError::Error(_))) ==> positions.contains(j)
                }
        }),
{
    let positions = lemma_error_positions(ids, results, n);
    let reported = failed_ids(ids, results, n);
    assert forall|j: int|
        0 <= j < n && ((#[trigger] results[j]) matches Err(WorkflowError::Error(_))) implies reported.contains(
        ids[j],
    ) by {
        assert(positions.contains(j));
        let k = choose|k: int| 0 <= k < positions.len() && positions[k] == j;
        assert(reported[k] == ids[j]);
    }
}

/// The positions, in increasing order, of the messages whose ids
/// `failed_ids` reports.
proof fn lemma_error_positions<I, Response>(
    ids: Seq<I>,
    results: Seq<Result<Response, WorkflowError>>,
    n: int,
) -> (positions: Seq<int>)
    requires
        0 <= n <= ids.len(),
        n <= results.len(),
    ensures
        positions.len() == failed_ids(ids, results, n).len(),
        forall|k: int|
            0 <= k < positions.len() ==> 0 <= #[trigger] positions[k] < n && (results[positions[k]] matches Err(
                WorkflowError::Error(_),
            )) && failed_ids(ids, results, n)[k] == ids[positions[k]],
        forall|k1: int, k2: int| 0 <= k1 < k2 < positions.len() ==> #[trigger] positions[k1] < #[trigger] positions[k2],
        forall|j: int|
            0 <= j < n && ((#[trigger] results[j]) matches Err(WorkflowError::Error(_))) ==> positions.contains(j),
    decreases n,
{
    if n == 0 {
        Seq::empty()
    } else {
        let prev = lemma_error_positions(ids, results, n - 1);
        if results[n - 1] matches Err(WorkflowError::Error(_)) {
            let positions = prev.push(n - 1);
            assert forall|j: int|
                0 <= j < n && ((#[trigger] results[j]) matches Err(WorkflowError::Error(_))) implies positions.contains(
                j,
            ) by {
                if j < n - 1 {
                    let k = choose|k: int| 0 <= k < prev.len() && prev[k] == j;
                    assert(positions[k] == j);
                } else {
                    assert(positions[positions.len() - 1] == j);
                }
            }
            positions
        } else {
            prev
        }
    }
}

} // verus!
