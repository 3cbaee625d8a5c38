use vstd::prelude::*;

verus! {

/// The kind of an operating-system failure carried by a command error.
#[derive(Debug, Clone, Copy, PartialEq, Eq, Structural)]
pub enum IoKind {
    NotFound,
    Other,
}

/// Every failure the migration can report.
///
/// Paths and underlying causes are carried as text.
#[derive(Debug, Clone)]
pub enum AppError {
    ConfigReadError(String, String),
    ConfigSerializationError(String, String),
    InputError(String),
    FileError(String, String),
    DatabaseError(String),
    MissingPrerequisites(String),
    CommandError(String, IoKind, String),
    UnknownSiteType(String),
    CredentialParseError(String),
    ForgeAPIError(String),
    RegexParseError(String),
}

pub type AppResult<T> = Result<T, AppError>;

/// `a` followed by `b`.
pub fn cat(a: &str, b: &str) -> (r: String)
    ensures
        r@ == a@ + b@,
{
    let s = String::from_str(a);
    s.concat(b)
}

/// `a`, `b` and `c` in a row.
pub fn cat3(a: &str, b: &str, c: &str) -> (r: String)
    ensures
        r@ == a@ + b@ + c@,
{
    let s = cat(a, b);
    s.concat(c)
}

/// `a`, `b`, `c` and `d` in a row.
pub fn cat4(a: &str, b: &str, c: &str, d: &str) -> (r: String)
    ensures
        r@ == a@ + b@ + c@ + d@,
{
    let s = cat3(a, b, c);
    s.concat(d)
}

impl AppError {
    /// The one-line text shown to the user for this error.
    pub open spec fn message_spec(&self) -> Seq<char> {
        match self {
            AppError::ConfigReadError(p, e) => "Failed to read config file at "@ + p@ + ": "@ + e@,
            AppError::ConfigSerializationError(p, e) => "Failed to serialize config file at "@ + p@
                + ": "@ + e@,
            AppError::FileError(p, e) => "File error at "@ + p@ + ": "@ + e@,
            AppError::DatabaseError(m) => "Database error: "@ + m@,
            AppError::InputError(e) => "Input error: "@ + e@,
            AppError::CommandError(c, _, e) => "Command `"@ + c@ + "` failed to execute: "@ + e@,
            AppError::MissingPrerequisites(c) => "Missing prerequisites: "@ + c@,
            AppError::UnknownSiteType(p) => "Unknown site type at path: "@ + p@,
            AppError::CredentialParseError(k) => "Unable to parse credentials at path: "@ + k@,
            AppError::RegexParseError(m) => "Regex: "@ + m@,
            AppError::ForgeAPIError(m) => "Forge API: "@ + m@,
        }
    }

    /// The one-line text shown to the user for this error.
    pub fn message(&self) -> (r: String)
        ensures
            r@ == self.message_spec(),
    {
        match self {
            AppError::ConfigReadError(p, e) => cat4(
                "Failed to read config file at ",
                p.as_str(),
                ": ",
                e.as_str(),
            ),
            AppError::ConfigSerializationError(p, e) => cat4(
                "Failed to serialize config file at ",
                p.as_str(),
                ": ",
                e.as_str(),
            ),
            AppError::FileError(p, e) => cat4("File error at ", p.as_str(), ": ", e.as_str()),
            AppError::DatabaseError(m) => cat("Database error: ", m.as_str()),
            AppError::InputError(e) => cat("Input error: ", e.as_str()),
            AppError::CommandError(c, _, e) => cat4(
                "Command `",
                c.as_str(),
                "` failed to execute: ",
                e.as_str(),
            ),
            AppError::MissingPrerequisites(c) => cat("Missing prerequisites: ", c.as_str()),
            AppError::UnknownSiteType(p) => cat("Unknown site type at path: ", p.as_str()),
            AppError::CredentialParseError(k) => cat(
                "Unable to parse credentials at path: ",
                k.as_str(),
            ),
            AppError::RegexParseError(m) => cat("Regex: ", m.as_str()),
            AppError::ForgeAPIError(m) => cat("Forge API: ", m.as_str()),
        }
    }
}

} // verus!
