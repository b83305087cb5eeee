# plume_models

Two models of a federated blogging server, verified with Verus:

- **instances**: the servers that take part in the network, which of them is this one, which are
  blocked, and what is published of them;
- **reshares**: that a user has shared a post, how that is announced, withdrawn and received, and
  who is notified of it.

## Layout

- `src/instance.rs`, `src/themes.rs`, `src/reshare.rs`: the models.
- `src/task.rs`: what alternates with the database and the network, as a state machine that asks for
  one piece of work at a time and goes on with the reply.
- `src/flow.rs`: the same tasks run to their end on tables in memory, and what the tables become.
- `src/query.rs`, `src/connection.rs`: tables, and the queries that the models make.
- `src/activity.rs`, `src/json.rs`, `src/iri.rs`: activities as plain texts, and the calls into `activitypub` and
  `activitystreams` that turn them into JSON and back. Each of these calls is declared with the
  contract that the proofs take from it.
- `src/instance_laws.rs`, `src/reshare_laws.rs`: what holds over several calls.
- `app/`: the models on a database, with the parts that read and write.
- `tests/`: the models on concrete values.

A table of instances or reshares is a sequence of rows; every contract says what the tables become
and what is returned, for every state of the tables.
