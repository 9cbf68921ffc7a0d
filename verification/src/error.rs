use vstd::prelude::*;

verus! {

/// The kinds of record a lookup can miss.
#[derive(Debug, Clone, PartialEq, Eq)]
pub enum DataType {
    User,
    Email,
    SignupToken,
}

/// What went wrong, in the terms the API reports to its users.
#[derive(Debug, Clone, PartialEq, Eq)]
pub enum ErrorCode {
    /// The inviter has no invitation credit left.
    CreditExhausted,
    /// The e-mail address already belongs to a user.
    DuplicateRegister,
    /// The e-mail address has already been invited.
    DuplicateInvitation,
    /// No record of the given type carries the given key.
    NotFound(DataType, String),
    /// The password is shorter or longer than the configured bounds.
    PasswordLength,
    /// Wrong user name or password.
    PermissionDenied,
    /// The lawyer registry answered a search with a failure status.
    SearchingLawyerbcFail,
    /// A JSON document could not be read.
    ParsingJson,
    /// An argument does not have the required form; the text names it.
    ArgumentFormatError(String),
}

/// Failures of the services the library hands work to.
#[derive(Debug, Clone, Copy, PartialEq, Eq)]
pub enum InternalError {
    Database,
    Http,
    PasswordHash,
    Mail,
}

/// The error type of every fallible operation.
#[derive(Debug, Clone, PartialEq, Eq)]
pub enum Error {
    /// A refusal decided by the service's own rules, with an optional context message.
    Logic { code: ErrorCode, context: Option<String> },
    /// A failure of an outside service.
    Internal(InternalError),
}

/// The error that carries `code` and no context message.
pub open spec fn logic_error(code: ErrorCode) -> Error {
    Error::Logic { code, context: None }
}

impl Error {
    /// The error that carries `code` and no context message.
    pub fn from_code(code: ErrorCode) -> (r: Error)
        ensures
            r == logic_error(code),
    {
        Error::Logic { code, context: None }
    }

    /// The error that carries `code` and the context message `msg`.
    pub fn with_context(code: ErrorCode, msg: &str) -> (r: Error)
        ensures
            is_logic_with_context(r, code, msg@),
    {
        Error::Logic { code, context: Some(msg.to_owned()) }
    }
}

} // verus!

verus! {

/// `e` is the refusal `code` with the context message `msg`.
pub open spec fn is_logic_with_context(e: Error, code: ErrorCode, msg: Seq<char>) -> bool {
    e matches Error::Logic { code: c, context: Some(s) } && c == code && s@ == msg
}

/// `e` is the refusal "argument has the wrong form", naming the argument `what`.
pub open spec fn is_argument_format_error(e: Error, what: Seq<char>) -> bool {
    e matches Error::Logic { code: ErrorCode::ArgumentFormatError(s), context: None } && s@ == what
}

} // verus!

verus! {

/// The error of a lookup of the record of type `kind` under `key` that
/// failed: "not found" when the query found no row, a database failure
/// otherwise.
pub fn lookup_error(kind: DataType, key: String, row_missing: bool) -> (r: Error)
    ensures
        row_missing ==> r == logic_error(ErrorCode::NotFound(kind, key)),
        !row_missing ==> r == Error::Internal(InternalError::Database),
{
    if row_missing {
        Error::from_code(ErrorCode::NotFound(kind, key))
    } else {
        Error::Internal(InternalError::Database)
    }
}

} // verus!
