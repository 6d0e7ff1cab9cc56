//! Errors of the conductor and their mapping onto gRPC status codes.
use vstd::prelude::*;

verus! {

/// Database engine that produced a database error.
#[derive(Clone, Copy, Debug, PartialEq, Eq, Structural)]
pub enum DbBackend {
    Sqlite,
    MySql,
    Other,
}

/// A database error, as far as the conductor inspects it.
#[derive(Clone, Debug)]
pub enum DbError {
    /// An error reported by the database engine, with its code and message.
    Database { backend: DbBackend, code: Option<String>, message: String },
    /// A query that had to return a row returned none.
    RowNotFound,
    /// Any other driver error (I/O, pool, decoding), by its description.
    Other(String),
}

/// The conductor's error kinds.
#[derive(Clone, Debug)]
pub enum UiEventHandlerError {
    TonicServerError(String),
    RuntimeError(String),
    CodecError(String),
    NotFound(String),
    AlreadyExists(String),
    FailedPrecondition(String),
    Unimplemented(String),
    RedisError(String),
    DBError(DbError),
    GenerateIdError(String),
    ParseError(String),
    OtherError(String),
}

/// gRPC status codes used by the admin API.
#[derive(Clone, Copy, Debug, PartialEq, Eq, Structural)]
pub enum GrpcCode {
    NotFound,
    AlreadyExists,
    FailedPrecondition,
    Unimplemented,
    Unavailable,
    Internal,
    InvalidArgument,
}

/// Whether a database error code denotes a unique-constraint violation
/// (SQLite extended code 2067, MySQL error 1062).
pub open spec fn spec_is_unique_violation_code(code: Seq<char>) -> bool {
    code == "2067"@ || code == "1062"@
}

pub fn is_unique_violation_code(code: &str) -> (r: bool)
    ensures
        r == spec_is_unique_violation_code(code@),
{
    let a = String::from_str("2067");
    let b = String::from_str("1062");
    let s = String::from_str(code);
    s == a || s == b
}

/// Whether a database error is a unique violation according to its code.
pub open spec fn spec_db_error_is_unique_violation(e: DbError) -> bool {
    match e {
        DbError::Database { code: Some(c), .. } => spec_is_unique_violation_code(c@),
        _ => false,
    }
}

pub fn db_error_is_unique_violation(e: &DbError) -> (r: bool)
    ensures
        r == spec_db_error_is_unique_violation(*e),
{
    match e {
        DbError::Database { code: Some(c), .. } => is_unique_violation_code(c.as_str()),
        _ => false,
    }
}

/// The status code for a database-level error: SQLite 2067 and MySQL 1062 are duplicates,
/// every other database error is reported as unavailable.
pub open spec fn spec_db_error_code(backend: DbBackend, code: Option<String>) -> GrpcCode {
    match backend {
        DbBackend::Sqlite => match code {
            Some(c) => if c@ == "2067"@ { GrpcCode::AlreadyExists } else { GrpcCode::Unavailable },
            None => GrpcCode::Unavailable,
        },
        DbBackend::MySql => match code {
            Some(c) => if c@ == "1062"@ { GrpcCode::AlreadyExists } else { GrpcCode::Unavailable },
            None => GrpcCode::Unavailable,
        },
        DbBackend::Other => GrpcCode::Unavailable,
    }
}

pub fn map_db_error(backend: DbBackend, code: &Option<String>) -> (r: GrpcCode)
    ensures
        r == spec_db_error_code(backend, *code),
{
    match backend {
        DbBackend::Sqlite => match code {
            Some(c) => {
                let s = String::from_str("2067");
                if *c == s { GrpcCode::AlreadyExists } else { GrpcCode::Unavailable }
            },
            None => GrpcCode::Unavailable,
        },
        DbBackend::MySql => match code {
            Some(c) => {
                let s = String::from_str("1062");
                if *c == s { GrpcCode::AlreadyExists } else { GrpcCode::Unavailable }
            },
            None => GrpcCode::Unavailable,
        },
        DbBackend::Other => GrpcCode::Unavailable,
    }
}

/// The gRPC answer to an error: its code, and the message to send verbatim when the error
/// carries one (`None`: the caller describes the error itself).
pub open spec fn spec_handle_error(err: Option<UiEventHandlerError>) -> (GrpcCode, Option<Seq<char>>) {
    match err {
        Some(UiEventHandlerError::DBError(DbError::Database { backend, code, .. })) =>
            (spec_db_error_code(backend, code), None),
        Some(UiEventHandlerError::DBError(DbError::RowNotFound)) => (GrpcCode::NotFound, None),
        Some(UiEventHandlerError::NotFound(m)) => (GrpcCode::NotFound, Some(m@)),
        Some(UiEventHandlerError::AlreadyExists(m)) => (GrpcCode::AlreadyExists, Some(m@)),
        Some(UiEventHandlerError::FailedPrecondition(m)) => (GrpcCode::FailedPrecondition, Some(m@)),
        Some(UiEventHandlerError::Unimplemented(m)) => (GrpcCode::Unimplemented, Some(m@)),
        _ => (GrpcCode::Internal, None),
    }
}

/// Maps an error (`None`: an error that is not one of the conductor's kinds) onto the
/// status code the admin API answers with.
pub fn handle_error(err: Option<&UiEventHandlerError>) -> (r: (GrpcCode, Option<String>))
    ensures
        r.0 == spec_handle_error(match err { Some(e) => Some(*e), None => None }).0,
        crate::text::opt_view(r.1) == spec_handle_error(match err { Some(e) => Some(*e), None => None }).1,
{
    match err {
        Some(UiEventHandlerError::DBError(DbError::Database { backend, code, .. })) =>
            (map_db_error(*backend, code), None),
        Some(UiEventHandlerError::DBError(DbError::RowNotFound)) => (GrpcCode::NotFound, None),
        Some(UiEventHandlerError::NotFound(m)) => (GrpcCode::NotFound, Some(m.clone())),
        Some(UiEventHandlerError::AlreadyExists(m)) => (GrpcCode::AlreadyExists, Some(m.clone())),
        Some(UiEventHandlerError::FailedPrecondition(m)) =>
            (GrpcCode::FailedPrecondition, Some(m.clone())),
        Some(UiEventHandlerError::Unimplemented(m)) => (GrpcCode::Unimplemented, Some(m.clone())),
        _ => (GrpcCode::Internal, None),
    }
}

/// Whether a database error is a duplicate-key error: MySQL 1061/1062, or a message about a
/// unique constraint or an existing object. Only database errors that carry a code count.
pub open spec fn spec_is_duplicate_constraint_error(e: DbError) -> bool {
    match e {
        DbError::Database { code: Some(c), message, .. } =>
            c@ == "1061"@ || c@ == "1062"@ || crate::text::spec_contains(message@, "UNIQUE constraint"@)
                || crate::text::spec_contains(message@, "already exists"@),
        _ => false,
    }
}

/// Whether a database error is a duplicate-key error.
pub fn is_duplicate_constraint_error(e: &DbError) -> (r: bool)
    ensures
        r == spec_is_duplicate_constraint_error(*e),
{
    match e {
        DbError::Database { code: Some(c), message, .. } => {
            let a = String::from_str("1061");
            let b = String::from_str("1062");
            *c == a || *c == b || crate::text::str_contains(message.as_str(), "UNIQUE constraint")
                || crate::text::str_contains(message.as_str(), "already exists")
        },
        _ => false,
    }
}

/// The error of a failed insert of a named configuration: a unique violation means the name
/// is taken (`"<entity> name '<name>' already exists"`), anything else stays a database error.
pub fn insert_failure(entity: &str, name: &str, err: DbError) -> (r: UiEventHandlerError)
    ensures
        spec_db_error_is_unique_violation(err) ==> (r matches UiEventHandlerError::AlreadyExists(m)
            && m@ == entity@ + " name '"@ + name@ + "' already exists"@),
        !spec_db_error_is_unique_violation(err) ==> r == UiEventHandlerError::DBError(err),
{
    if db_error_is_unique_violation(&err) {
        UiEventHandlerError::AlreadyExists(
            String::from_str(entity).concat(" name '").concat(name).concat("' already exists"),
        )
    } else {
        UiEventHandlerError::DBError(err)
    }
}

} // verus!
