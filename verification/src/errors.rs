//! The error kinds of the relay and the text each one is reported with.

use vstd::prelude::*;
use vstd::string::StringExecFns;

verus! {

/// Why a command was refused.
///
/// `InvalidCredentials` stands both for a wrong password at sign-in and for a
/// message operation attempted without an active session.
#[derive(Debug, PartialEq, Eq)]
pub enum AppError {
    UserNotFound,
    UsernameTaken,
    InvalidCredentials,
    MessageNotFound,
    Internal(String),
}

pub type AppResult<T> = Result<T, AppError>;

/// An error as the contracts see it: the same kinds, the detail as text.
pub enum Failure {
    UserNotFound,
    UsernameTaken,
    InvalidCredentials,
    MessageNotFound,
    Internal(Seq<char>),
}

impl View for AppError {
    type V = Failure;

    open spec fn view(&self) -> Failure {
        match self {
            AppError::UserNotFound => Failure::UserNotFound,
            AppError::UsernameTaken => Failure::UsernameTaken,
            AppError::InvalidCredentials => Failure::InvalidCredentials,
            AppError::MessageNotFound => Failure::MessageNotFound,
            AppError::Internal(detail) => Failure::Internal(detail@),
        }
    }
}

/// Whether `outcome` is an internal error carrying exactly `detail`.
pub open spec fn fails_internally<T>(outcome: AppResult<T>, detail: Seq<char>) -> bool {
    outcome matches Err(e) && e.is_internal(detail)
}

impl AppError {
    /// The text under which this error is reported.
    pub open spec fn spec_message(&self) -> Seq<char> {
        match self {
            AppError::UserNotFound => "User not found"@,
            AppError::UsernameTaken => "Username taken"@,
            AppError::InvalidCredentials => "Invalid credentials"@,
            AppError::MessageNotFound => "Message not found"@,
            AppError::Internal(detail) => "Internal Error: "@ + detail@,
        }
    }

    /// Whether this is an internal error carrying exactly `detail`.
    pub open spec fn is_internal(&self, detail: Seq<char>) -> bool {
        self matches AppError::Internal(text) && text@ == detail
    }

    /// An internal error with the given detail.
    pub fn internal(detail: &str) -> (e: AppError)
        ensures
            e.is_internal(detail@),
    {
        AppError::Internal(String::from_str(detail))
    }

    /// Renders the error as the text shown to a client.
    pub fn message(&self) -> (text: String)
        ensures
            text@ == self.spec_message(),
    {
        match self {
            AppError::UserNotFound => String::from_str("User not found"),
            AppError::UsernameTaken => String::from_str("Username taken"),
            AppError::InvalidCredentials => String::from_str("Invalid credentials"),
            AppError::MessageNotFound => String::from_str("Message not found"),
            AppError::Internal(detail) => {
                String::from_str("Internal Error: ").concat(detail.as_str())
            },
        }
    }

    /// Two errors that are reported with the same text are of the same kind,
    /// and two internal errors with the same text carry the same detail.
    pub proof fn lemma_message_tells_kind(a: AppError, b: AppError)
        requires
            a.spec_message() == b.spec_message(),
        ensures
            a is UserNotFound <==> b is UserNotFound,
            a is UsernameTaken <==> b is UsernameTaken,
            a is InvalidCredentials <==> b is InvalidCredentials,
            a is MessageNotFound <==> b is MessageNotFound,
            a is Internal <==> b is Internal,
            a is Internal ==> a->Internal_0@ == b->Internal_0@,
    {
        reveal_strlit("User not found");
        reveal_strlit("Username taken");
        reveal_strlit("Invalid credentials");
        reveal_strlit("Message not found");
        reveal_strlit("Internal Error: ");
        let ma = a.spec_message();
        let mb = b.spec_message();
        assert(ma.len() == mb.len());
        assert(ma[0] == mb[0]);
        assert(ma[2] == mb[2]);
        assert(ma[4] == mb[4]);
        if a is Internal && b is Internal {
            let da = a->Internal_0@;
            let db = b->Internal_0@;
            let prefix = "Internal Error: "@;
            assert(da =~= (prefix + da).subrange(16, ma.len() as int));
            assert(db =~= (prefix + db).subrange(16, mb.len() as int));
        }
    }
}

} // verus!
