//! The schema description shapes a request may carry.

use vstd::prelude::*;

use crate::json::Json;

verus! {

/// The kind of a schema property.
#[derive(Clone, Copy, Debug, PartialEq, Eq, Structural)]
pub enum SchemaType {
    String,
    Number,
    Integer,
    Boolean,
    Array,
    Object,
}

/// A schema description; nested properties are held as key–schema
/// pairs in their declared order.
#[derive(Debug, PartialEq)]
pub struct Schema {
    pub schema_type: Option<SchemaType>,
    pub format: Option<String>,
    pub description: Option<String>,
    pub nullable: Option<bool>,
    pub items: Option<Box<Schema>>,
    pub enum_values: Option<Vec<String>>,
    pub properties: Option<Vec<(String, Schema)>>,
    pub required: Option<Vec<String>>,
    pub example: Option<Json>,
}

} // verus!
