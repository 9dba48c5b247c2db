use vstd::prelude::*;

use crate::standalone::model::WorkflowError;
use crate::workflow::batch_handler::{identifiers, paired_len, BatchItemFailure};

verus! {

/// A message failed if its workflow ended in an error; a suspended workflow
/// did not fail.
pub open spec fn is_failure(result: Result<(), WorkflowError>) -> bool {
    result matches Err(WorkflowError::Error(_))
}

/// The ids of the first `n` messages whose results are failures, in order.
pub open spec fn failed_ids(ids: Seq<String>, results: Seq<Result<(), WorkflowError>>, n: int) -> Seq<String>
    decreases n,
{
    if n <= 0 {
        Seq::empty()
    } else if is_failure(results[n - 1]) {
        failed_ids(ids, results, n - 1).push(ids[n - 1])
    } else {
        failed_ids(ids, results, n - 1)
    }
}

/// Keep the message ids where the failure was not a suspension, pairing the
/// ids and the results in order.
pub fn collect_batch_failures(message_ids: Vec<String>, results: Vec<Result<(), WorkflowError>>) -> (failures: Vec<
    BatchItemFailure,
>)
    ensures
        identifiers(failures@) == failed_ids(
            message_ids@,
            results@,
            paired_len(message_ids@.len(), results@.len()),
        ),
        ({
            let n = paired_len(message_ids@.len(), results@.len());
            let reported = identifiers(failures@);
            let ids = message_ids@;
            let results = results@;
            &&& forall|j: int|
                0 <= j < n && ((#[trigger] results[j]) matches Err(WorkflowError::Error(_))) ==> reported.contains(ids[j])
            &&& exists|positions: Seq<int>|
                {
                    &&& positions.len() == reported.len()
                    &&& forall|k: int|
                        0 <= k < positions.len() ==> 0 <= #[trigger] positions[k] < n && (results[positions[k]] matches Err(
                            WorkflowError::Error(_),
                        )) && reported[k] == ids[positions[k]]
                    &&& forall|k1: int, k2: int|
                        0 <= k1 < k2 < positions.len() ==> #[trigger] positions[k1] < #[trigger] positions[k2]
                    &&& forall|j: int|
                        0 <= j < n && ((#[trigger] results[j]) matches Err(WorkflowError::Error(_))) ==> positions.contains(j)
                }
        }),
{
    let n = if message_ids.len() <= results.len() {
        message_ids.len()
    } else {
        results.len()
    };
    let mut failures: Vec<BatchItemFailure> = Vec::new();
    let mut i: usize = 0;
    while i < n
        invariant
            n == paired_len(message_ids@.len(), results@.len()),
            0 <= i <= n,
            identifiers(failures@) == failed_ids(message_ids@, results@, i as int),
        decreases n - i,
    {
        let failed = match &results[i] {
            Ok(()) => false,
            Err(WorkflowError::Suspended) => false,
            Err(WorkflowError::Error(_)) => true,
        };
        if failed {
            let ghost before = failures@;
            failures.push(BatchItemFailure { item_identifier: message_ids[i].clone() });
            proof {
                assert(identifiers(failures@) =~= identifiers(before).push(message_ids@[i as int]));
            }
        }
        i = i + 1;
    }
    proof {
        law_reported_ids_are_the_errors_in_order(message_ids@, results@, n as int);
    }
    failures
}

/// The failures reported for a batch are exactly its messages whose workflow
/// ended in an error, in message order: suspended and successful workflows
/// are never reported, and no failed message is left out.
pub proof fn law_reported_ids_are_the_errors_in_order(
    ids: Seq<String>,
    results: Seq<Result<(), WorkflowError>>,
    n: int,
)
    requires
        0 <= n <= ids.len(),
        n <= results.len(),
    ensures
        ({
            let reported = failed_ids(ids, results, n);
            &&& forall|j: int|
                0 <= j < n && ((#[trigger] results[j]) matches Err(WorkflowError::Error(_))) ==> reported.contains(ids[j])
            &&& exists|positions: Seq<int>|
                {
                    &&& positions.len() == reported.len()
                    &&& forall|k: int|
                        0 <= k < positions.len() ==> 0 <= #[trigger] positions[k] < n && (results[positions[k]] matches Err(
                            WorkflowError::Error(_),
                        )) && reported[k] == ids[positions[k]]
                    &&& forall|k1: int, k2: int|
                        0 <= k1 < k2 < positions.len() ==> #[trigger] positions[k1] < #[trigger] positions[k2]
                    &&& forall|j: int|
                        0 <= j < n && ((#[trigger] results[j]) matches Err(WorkflowError::Error(_))) ==> positions.contains(j)
                }
        }),
{
    let positions = lemma_error_positions(ids, results, n);
    let reported = failed_ids(ids, results, n);
    assert forall|j: int|
        0 <= j < n && ((#[trigger] results[j]) matches Err(WorkflowError::Error(_))) implies reported.contains(
        ids[j],
    ) by {
        assert(positions.contains(j));
        let k = choose|k: int| 0 <= k < positions.len() && positions[k] == j;
        assert(reported[k] == ids[j]);
    }
}

/// The positions, in increasing order, of the messages whose ids
/// `failed_ids` reports.
proof fn lemma_error_positions(ids: Seq<String>, results: Seq<Result<(), WorkflowError>>, n: int) -> (positions: Seq<
    int,
>)
    requires
        0 <= n <= ids.len(),
        n <= results.len(),
    ensures
        positions.len() == failed_ids(ids, results, n).len(),
        forall|k: int|
            0 <= k < positions.len() ==> 0 <= #[trigger] positions[k] < n && (results[positions[k]] matches Err(
                WorkflowError::Error(_),
            )) && failed_ids(ids, results, n)[k] == ids[positions[k]],
        forall|k1: int, k2: int| 0 <= k1 < k2 < positions.len() ==> #[trigger] positions[k1] < #[trigger] positions[k2],
        forall|j: int|
            0 <= j < n && ((#[trigger] results[j]) matches Err(WorkflowError::Error(_))) ==> positions.contains(j),
    decreases n,
{
    if n == 0 {
        Seq::empty()
    } else {
        let prev = lemma_error_positions(ids, results, n - 1);
        if results[n - 1] matches Err(WorkflowError::Error(_)) {
            let positions = prev.push(n - 1);
            assert forall|j: int|
                0 <= j < n && ((#[trigger] results[j]) matches Err(WorkflowError::Error(_))) implies positions.contains(
                j,
            ) by {
                if j < n - 1 {
                    let k = choose|k: int| 0 <= k < prev.len() && prev[k] == j;
                    assert(positions[k] == j);
                } else {
                    assert(positions[positions.len() - 1] == j);
                }
            }
            positions
        } else {
            prev
        }
    }
}

} // verus!
