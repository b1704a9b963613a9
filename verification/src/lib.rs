//! Verified core of the OpenFGA client: identifier checks, retry policy,
//! error classification, request planning and response framing.

pub mod internal;
pub mod error;
pub mod api;
pub mod credentials;
pub mod telemetry;
pub mod models;
pub mod oauth2;
pub mod streaming;
pub mod client;

pub use client::ClientConfiguration;
pub use error::OpenFgaError;
pub use models::{
    Assertion, AssertionTupleKey, AuthErrorCode, AuthorizationModel, BatchCheckItem,
    BatchCheckRequest, BatchCheckResponse, BatchCheckSingleResult, CheckError, CheckRequest,
    CheckRequestTupleKey, CheckResponse, Computed, ComputedUserset, Condition,
    ConditionMetadata, ConditionParamTypeRef, ConsistencyPreference, ContextualTupleKeys,
    CreateStoreRequest, CreateStoreResponse, Difference, ErrorCode, ExpandRequest,
    ExpandRequestTupleKey, ExpandResponse, FgaObject, ForbiddenResponse, GetStoreResponse,
    InternalErrorCode, InternalErrorMessageResponse, Leaf, ListObjectsRequest,
    ListObjectsResponse, ListStoresResponse, ListUsersRequest, ListUsersResponse, Metadata,
    Node, Nodes, NotFoundErrorCode, ObjectRelation, PathUnknownErrorMessageResponse,
    ReadAssertionsResponse, ReadAuthorizationModelResponse, ReadAuthorizationModelsResponse,
    ReadChangesRequest, ReadChangesResponse, ReadRequest, ReadRequestTupleKey, ReadResponse,
    RelationMetadata, RelationReference, RelationshipCondition, SourceInfo, Status, Store,
    StreamResult, StreamedListObjectsResponse, This, Timestamp, Tuple, TupleChange, TupleKey,
    TupleKeyWithoutCondition, TupleOperation, TupleToUserset, TypeDefinition, TypeName,
    TypedWildcard, TypedWildcardUser, UnauthenticatedResponse, User, UserTypeFilter, Users,
    Userset, UsersetTree, UsersetTreeDifference, UsersetTreeTupleToUserset, UsersetUser,
    Usersets, ValidationErrorMessageResponse, WriteAssertionsRequest,
    WriteAuthorizationModelRequest, WriteAuthorizationModelResponse, WriteRequest,
    WriteRequestDeletes, WriteRequestWrites,
};
