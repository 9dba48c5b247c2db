# lambda_workflow

A serverless workflow runtime: a workflow makes asynchronous calls to
services, suspends while they run, and is re-invoked when a service reports
its result; the results kept in a state store are then replayed.

- `src/` is the verified library: the model of events and tasks, the state
  store contract and an in-memory store, the workflow context (queueing,
  replaying and dispatching calls), the runtime that accepts events, the
  batch answer that reports failed messages, and a small single-binary
  engine with its example workflow. Contracts and laws are proved by Verus.
- `app/` is the lambda around it: SQS and DynamoDB access, JSON encoding,
  environment variables, logging and the concurrent handling of a batch.
- `tests/` exercises the library on concrete events.
