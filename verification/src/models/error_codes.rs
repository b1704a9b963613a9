//! Error code enums.
use vstd::prelude::*;

verus! {

// ────────────────────────────────────────────────────────────────────────────
// ErrorCode
// ────────────────────────────────────────────────────────────────────────────

/// Machine-readable error codes for validation / request errors.
#[derive(Debug, Clone, PartialEq)]
#[allow(missing_docs)]
pub enum ErrorCode {
    NoError,
    ValidationError,
    AuthorizationModelNotFound,
    AuthorizationModelResolutionTooComplex,
    InvalidWriteInput,
    CannotAllowDuplicateTuplesInOneRequest,
    CannotAllowDuplicateTypesInOneRequest,
    CannotAllowMultipleReferencesToOneRelation,
    InvalidContinuationToken,
    InvalidTupleSet,
    InvalidCheckInput,
    InvalidExpandInput,
    UnsupportedUserSet,
    InvalidObjectFormat,
    WriteFailedDueToInvalidInput,
    AuthorizationModelAssertionsNotFound,
    LatestAuthorizationModelNotFound,
    TypeNotFound,
    RelationNotFound,
    EmptyRelationsForATypeInAuthorityModel,
    StoreIdInvalidLength,
    AssertionsTooManyItems,
    IdTooLong,
    AuthorizationModelIdTooLong,
    TupleKeyValueNotSpecified,
    TupleKeysTooManyOrTooFewItems,
    PageSizeInvalid,
    ParamMissingValue,
    DifferenceBaseMissingValue,
    AtLeastOneConditionMustBeSpecified,
    ConditionNotFound,
    InvalidSyntaxType,
    InvalidSchemaVersion,
    InvalidAuthorizationModel,
    ExceededEntityLimit,
    InvalidContextualTuple,
    NoWritesOrDeletesProvided,
    DuplicateContextualTuple,
    Unknown,
}

// ────────────────────────────────────────────────────────────────────────────
// AuthErrorCode
// ────────────────────────────────────────────────────────────────────────────

/// Error codes for authentication failures.
#[derive(Debug, Clone, PartialEq)]
#[allow(missing_docs)]
pub enum AuthErrorCode {
    AuthFailedInvalidSubject,
    AuthFailedInvalidAudience,
    AuthFailedInvalidIssuer,
    InvalidClaims,
    AuthFailedInvalidBearerToken,
    BearerTokenMissing,
    Unauthenticated,
}

// ────────────────────────────────────────────────────────────────────────────
// NotFoundErrorCode
// ────────────────────────────────────────────────────────────────────────────

/// Error codes for 404 not found responses.
#[derive(Debug, Clone, PartialEq)]
#[allow(missing_docs)]
pub enum NotFoundErrorCode {
    NoNotFoundError,
    UndefinedEndpoint,
    StoreIdNotFound,
    Unimplemented,
}

// ────────────────────────────────────────────────────────────────────────────
// InternalErrorCode
// ────────────────────────────────────────────────────────────────────────────

/// Error codes for internal server errors.
#[derive(Debug, Clone, PartialEq)]
#[allow(missing_docs)]
pub enum InternalErrorCode {
    NoInternalError,
    InternalError,
    Cancelled,
    DeadlineExceeded,
    AlreadyExists,
    ResourceExhausted,
    FailedPrecondition,
    Aborted,
    OutOfRange,
    Unavailable,
    DataLoss,
}

// ────────────────────────────────────────────────────────────────────────────
// API Error response bodies
// ────────────────────────────────────────────────────────────────────────────

/// Body of a 400/422 validation error response.
#[derive(Debug, Clone, PartialEq)]
pub struct ValidationErrorMessageResponse {
    /// Machine-readable code.
    pub code: ErrorCode,
    /// Human-readable message.
    pub message: String,
}

/// Body of a 5xx internal error response.
#[derive(Debug, Clone, PartialEq)]
pub struct InternalErrorMessageResponse {
    /// Machine-readable code.
    pub code: InternalErrorCode,
    /// Human-readable message.
    pub message: String,
}

/// Body of a 404 not found error response.
#[derive(Debug, Clone, PartialEq)]
pub struct PathUnknownErrorMessageResponse {
    /// Machine-readable code.
    pub code: NotFoundErrorCode,
    /// Human-readable message.
    pub message: String,
}

/// Body of a 401 unauthenticated error response.
#[derive(Debug, Clone, PartialEq)]
pub struct UnauthenticatedResponse {
    /// Machine-readable code.
    pub code: AuthErrorCode,
    /// Human-readable message.
    pub message: String,
}

/// Body of a 403 forbidden response.
#[derive(Debug, Clone, PartialEq)]
pub struct ForbiddenResponse {
    /// Machine-readable code.
    pub code: AuthErrorCode,
    /// Human-readable message.
    pub message: String,
}

} // verus!
