//! Verified core of the HASH engine task-message structs and of the graph
//! store's ontology and entity query logic.

pub mod closed_entity_type;
pub mod entity_query;
pub mod entity_type;
pub mod entity_type_traversal;
pub mod entity_type_write;
pub mod ontology_read;
pub mod ontology_types;
pub mod record_read;
pub mod task_msg;
