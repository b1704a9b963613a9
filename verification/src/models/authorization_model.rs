//! Authorization model types.
use vstd::prelude::*;

verus! {

// ────────────────────────────────────────────────────────────────────────────
// TypeName
// ────────────────────────────────────────────────────────────────────────────

/// The type name for a condition parameter.
#[derive(Debug, Clone, PartialEq)]
#[allow(missing_docs)]
pub enum TypeName {
    Unspecified,
    Any,
    Bool,
    String,
    Int,
    Uint,
    Double,
    Duration,
    Timestamp,
    Mapping,
    List,
    IpAddress,
}

// ────────────────────────────────────────────────────────────────────────────
// ConditionParamTypeRef
// ────────────────────────────────────────────────────────────────────────────

/// Reference to a condition parameter type.
#[derive(Debug, PartialEq)]
pub struct ConditionParamTypeRef {
    /// The type name.
    pub typ: TypeName,
    /// Generic type arguments, e.g. the value type of a map.
    pub generic_types: Option<Vec<ConditionParamTypeRef>>,
}

// ────────────────────────────────────────────────────────────────────────────
// ConditionMetadata
// ────────────────────────────────────────────────────────────────────────────

/// Metadata about a condition's parameters.
#[derive(Debug, Clone, PartialEq)]
pub struct ConditionMetadata {
    /// Map from parameter name → type reference.
    pub module: Option<String>,
    /// Source info for the condition.
    pub source_info: Option<SourceInfo>,
}

/// Source information for a model element.
#[derive(Debug, Clone, PartialEq)]
pub struct SourceInfo {
    /// The file the element was defined in.
    pub file: Option<String>,
}

// ────────────────────────────────────────────────────────────────────────────
// Condition
// ────────────────────────────────────────────────────────────────────────────

/// A condition definition in an authorization model.
#[derive(Debug, PartialEq)]
pub struct Condition {
    /// Condition name.
    pub name: String,
    /// CEL expression evaluated at runtime.
    pub expression: String,
    /// Parameter type references.
    pub parameters: Option<std::collections::HashMap<String, ConditionParamTypeRef>>,
    /// Optional metadata.
    pub metadata: Option<ConditionMetadata>,
}

// ────────────────────────────────────────────────────────────────────────────
// Userset types
// ────────────────────────────────────────────────────────────────────────────

/// An empty object representing the "this" userset (direct relations).
#[derive(Debug, Clone, PartialEq, Default)]
pub struct This {}

/// A computed userset reference.
#[derive(Debug, Clone, PartialEq)]
pub struct ObjectRelation {
    /// Object (can be empty for computed usersets relative to the current object).
    pub object: Option<String>,
    /// Relation name.
    pub relation: Option<String>,
}

/// A tuple-to-userset definition.
#[derive(Debug, Clone, PartialEq)]
pub struct TupleToUserset {
    /// The tuple set from which to compute the userset.
    pub tupleset: ObjectRelation,
    /// The computed userset derived from the tuple set.
    pub computed_userset: ObjectRelation,
}

/// A typed wildcard (all users of a type).
#[derive(Debug, Clone, PartialEq)]
pub struct TypedWildcard {
    /// The type name.
    pub typ: String,
}

/// A difference of two usersets (A minus B).
#[derive(Debug, PartialEq)]
pub struct Difference {
    /// The base userset.
    pub base: Box<Userset>,
    /// The subtract userset.
    pub subtract: Box<Userset>,
}

/// A computed userset definition inside an authorization model.
#[derive(Debug, Clone, PartialEq)]
pub struct ComputedUserset {
    /// The userset relation.
    pub userset: String,
}

/// A union / intersection of multiple usersets.
#[derive(Debug, PartialEq)]
pub struct Usersets {
    /// The child usersets.
    pub child: Vec<Userset>,
}

/// A userset definition - can be `this`, a union, intersection, difference,
/// a computed userset, or a tuple-to-userset.
#[derive(Debug, PartialEq, Default)]
pub struct Userset {
    /// Direct relation (this).
    pub this: Option<This>,
    /// Computed userset.
    pub computed_userset: Option<ObjectRelation>,
    /// Tuple-to-userset.
    pub tuple_to_userset: Option<TupleToUserset>,
    /// Union of usersets.
    pub union: Option<Usersets>,
    /// Intersection of usersets.
    pub intersection: Option<Usersets>,
    /// Difference of usersets.
    pub difference: Option<Difference>,
}

// ────────────────────────────────────────────────────────────────────────────
// RelationReference / RelationMetadata / Metadata
// ────────────────────────────────────────────────────────────────────────────

/// A reference to a type and optional relation or wildcard.
#[derive(Debug, Clone, PartialEq)]
pub struct RelationReference {
    /// The type name.
    pub typ: String,
    /// Optional relation within the type.
    pub relation: Option<String>,
    /// Wildcard - represents all users of the type.
    pub wildcard: Option<TypedWildcard>,
    /// Optional condition name.
    pub condition: Option<String>,
}

/// Metadata for a single relation.
#[derive(Debug, Clone, PartialEq, Default)]
pub struct RelationMetadata {
    /// The user types that can be directly related via this relation.
    pub directly_related_user_types: Option<Vec<RelationReference>>,
    /// Module information.
    pub module: Option<String>,
    /// Source info.
    pub source_info: Option<SourceInfo>,
}

/// Metadata for a `TypeDefinition`.
#[derive(Debug, Clone, PartialEq, Default)]
pub struct Metadata {
    /// Per-relation metadata.
    pub relations: Option<std::collections::HashMap<String, RelationMetadata>>,
    /// Module information.
    pub module: Option<String>,
    /// Source info.
    pub source_info: Option<SourceInfo>,
}

// ────────────────────────────────────────────────────────────────────────────
// TypeDefinition / AuthorizationModel
// ────────────────────────────────────────────────────────────────────────────

/// A type definition within an authorization model.
#[derive(Debug, PartialEq)]
pub struct TypeDefinition {
    /// The type name.
    pub typ: String,
    /// Relation definitions keyed by relation name.
    pub relations: Option<std::collections::HashMap<String, Userset>>,
    /// Optional metadata.
    pub metadata: Option<Metadata>,
}

/// A full authorization model.
#[derive(Debug, PartialEq)]
pub struct AuthorizationModel {
    /// The model ID (ULID).
    pub id: String,
    /// Schema version string (e.g. `"1.1"`).
    pub schema_version: String,
    /// Type definitions.
    pub type_definitions: Vec<TypeDefinition>,
    /// Optional condition definitions keyed by condition name.
    pub conditions: Option<std::collections::HashMap<String, Condition>>,
}

// ────────────────────────────────────────────────────────────────────────────
// Write / Read model requests & responses
// ────────────────────────────────────────────────────────────────────────────

/// Request body for `WriteAuthorizationModel`.
#[derive(Debug, PartialEq)]
pub struct WriteAuthorizationModelRequest {
    /// Schema version.
    pub schema_version: String,
    /// Type definitions.
    pub type_definitions: Vec<TypeDefinition>,
    /// Optional conditions.
    pub conditions: Option<std::collections::HashMap<String, Condition>>,
}

/// Response from `WriteAuthorizationModel`.
#[derive(Debug, Clone, PartialEq)]
pub struct WriteAuthorizationModelResponse {
    /// The ID of the newly created model.
    pub authorization_model_id: String,
}

/// Response from `ReadAuthorizationModel`.
#[derive(Debug, PartialEq)]
pub struct ReadAuthorizationModelResponse {
    /// The authorization model.
    pub authorization_model: Option<AuthorizationModel>,
}

/// Response from `ReadAuthorizationModels`.
#[derive(Debug, PartialEq)]
pub struct ReadAuthorizationModelsResponse {
    /// The list of authorization models.
    pub authorization_models: Vec<AuthorizationModel>,
    /// Pagination token for the next page.
    pub continuation_token: Option<String>,
}

} // verus!
