# hash_graph

Verified core of two parts of HASH:

* the engine's FlatBuffers `TaskMsg` table and its fixed-size structs
  `TaskId` and `GroupIndex` (`src/task_msg.rs`): reading a message whose root
  table the `flatbuffers` verifier accepts, and the byte encoding of the
  structs, done by the `flatbuffers` crate;
* the graph store's logic for ontology types, entity types and entities:
  which stored types a query selects and the statements that read them
  (`src/ontology_read.rs`, `src/record_read.rs`), the columns of entity and
  entity type records and how the link data of an entity row is decoded
  (`src/entity_query.rs`, `src/entity_type.rs`), the permission request and
  filter for reading entity types (`src/entity_type.rs`), the step-by-step
  closure of an entity type over its inheritance chain
  (`src/closed_entity_type.rs`), the decisions of creating and updating entity
  types (`src/entity_type_write.rs`) and the breadth-first traversal of entity
  types, which links and goes on only with the types the actor may view at
  the snapshot of the root check (`src/entity_type_traversal.rs`).

The verified functions of `src/` carry contracts that Verus proves; the
`flatbuffers` calls in `src/task_msg.rs` are the exception, made behind
`external_body` wrappers whose contracts are trusted, not proved.  The laws of
the library (read-after-write of the structs, the filters, the closure, the
creation and the traversal) are public proof functions next to the code they
speak of.

Writing and traversing entity types alternate outside calls with decisions,
so the library states them as step functions from a state and the answer to
its last action to the next state and action.  `app/` performs those actions:
it holds the Postgres input and output (running the statements, reading rows)
and the loops that drive the closure, the creation, the update and the
traversal.  `tests/` runs the library on concrete values.
