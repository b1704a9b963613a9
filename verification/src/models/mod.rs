//! Data models of the OpenFGA API: requests, responses, tuples,
//! authorization models and error bodies.

mod authorization_model;
mod batch_check;
mod check;
mod consistency;
mod contextual_tuples;
mod error_codes;
mod expand;
mod list_objects;
mod list_users;
mod misc;
mod outside;
mod read;
mod store;
mod timestamp;
mod tuple;
mod write;

pub use authorization_model::{
    AuthorizationModel, ComputedUserset, Condition, ConditionMetadata, ConditionParamTypeRef,
    Difference, Metadata, ObjectRelation, ReadAuthorizationModelResponse,
    ReadAuthorizationModelsResponse, RelationMetadata, RelationReference, SourceInfo, This,
    TupleToUserset, TypeDefinition, TypeName, TypedWildcard, Userset, Usersets,
    WriteAuthorizationModelRequest, WriteAuthorizationModelResponse,
};
pub use batch_check::{BatchCheckItem, BatchCheckRequest, BatchCheckResponse, BatchCheckSingleResult};
pub use check::{CheckError, CheckRequest, CheckResponse};
pub use consistency::ConsistencyPreference;
pub use contextual_tuples::ContextualTupleKeys;
pub use error_codes::{
    AuthErrorCode, ErrorCode, ForbiddenResponse, InternalErrorCode, InternalErrorMessageResponse,
    NotFoundErrorCode, PathUnknownErrorMessageResponse, UnauthenticatedResponse,
    ValidationErrorMessageResponse,
};
pub use expand::{
    Computed, ExpandRequest, ExpandResponse, Leaf, Node, Nodes, Users, UsersetTree,
    UsersetTreeDifference, UsersetTreeTupleToUserset,
};
pub use list_objects::{ListObjectsRequest, ListObjectsResponse, StreamedListObjectsResponse};
pub use list_users::{
    FgaObject, ListUsersRequest, ListUsersResponse, TypedWildcardUser, User, UserTypeFilter,
    UsersetUser,
};
pub use misc::{Status, StreamResult};
pub use read::{
    Assertion, AssertionTupleKey, ReadAssertionsResponse, ReadChangesRequest, ReadChangesResponse,
    ReadRequest, ReadResponse, WriteAssertionsRequest,
};
pub use store::{CreateStoreRequest, CreateStoreResponse, GetStoreResponse, ListStoresResponse, Store};
pub use tuple::{
    CheckRequestTupleKey, ExpandRequestTupleKey, ReadRequestTupleKey, RelationshipCondition, Tuple,
    TupleChange, TupleKey, TupleKeyWithoutCondition, TupleOperation,
};
pub use timestamp::Timestamp;
pub use write::{WriteRequest, WriteRequestDeletes, WriteRequestWrites};
