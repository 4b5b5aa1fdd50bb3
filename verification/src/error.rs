//! Errors of binding and accepting, with their messages.
use vstd::prelude::*;
use vstd::string::*;
use crate::listener::{io_error_kind_name, io_error_kind_of, IoErrorKind};

verus! {

/// `tokio-listener`-specific bind errors, to be packed in [`std::io::Error::other`].
#[derive(Debug)]
pub enum BindError {
    /// Binding failed because of support of specified address type was not enabled at compile time.
    MissingCompileTimeFeature { reason: &'static str, feature: &'static str },
    /// Binding failed because of support of specified address type is not available on this platform
    MissingPlatformSupport { reason: &'static str, feature: &'static str },
    /// Inspection of current process environment variable to serve `sd-listen` failed because of missing or malformed value
    EvnVarError { reason: &'static str, var: &'static str, fault: &'static str },
    /// Attempt to bind to an empty list of addresses
    MultiBindWithoutAddresses,
    /// There is some invalid value in the user options
    InvalidUserOption { name: &'static str },
}

/// The message of a bind error.
pub open spec fn bind_error_text(e: BindError) -> Seq<char> {
    match e {
        BindError::MissingCompileTimeFeature { reason, feature } => "tokio-listener: cannot "@
            + reason@ + " because of "@ + feature@ + " was not enabled at compile time"@,
        BindError::MissingPlatformSupport { reason, feature } => "tokio-listener: cannot "@
            + reason@ + " because of it is not a "@ + feature@,
        BindError::EvnVarError { reason, var, fault } => "tokio-listener: cannot "@ + reason@
            + " due to problem with environment variable "@ + var@ + ": "@ + fault@,
        BindError::MultiBindWithoutAddresses => "tokio-listener: no addresses specified to bind to"@,
        BindError::InvalidUserOption { name } => "tokio-listener: invalid value for user option "@
            + name@,
    }
}

impl BindError {
    /// The message of the error, as its `Display` writes it.
    pub fn message(&self) -> (r: String)
        ensures
            r@ == bind_error_text(*self),
    {
        match self {
            BindError::MissingCompileTimeFeature { reason, feature } => String::from_str(
                "tokio-listener: cannot ",
            ).concat(reason).concat(" because of ").concat(feature).concat(
                " was not enabled at compile time",
            ),
            BindError::MissingPlatformSupport { reason, feature } => String::from_str(
                "tokio-listener: cannot ",
            ).concat(reason).concat(" because of it is not a ").concat(feature),
            BindError::EvnVarError { reason, var, fault } => String::from_str(
                "tokio-listener: cannot ",
            ).concat(reason).concat(" due to problem with environment variable ").concat(
                var,
            ).concat(": ").concat(fault),
            BindError::MultiBindWithoutAddresses => String::from_str(
                "tokio-listener: no addresses specified to bind to",
            ),
            BindError::InvalidUserOption { name } => String::from_str(
                "tokio-listener: invalid value for user option ",
            ).concat(name),
        }
    }

    /// Packs the error in a `std::io::Error` of kind `Other`, whose payload is
    /// the error's message, as the `Err` of a result.
    pub fn to_io<T>(self) -> (r: Result<T, std::io::Error>)
        ensures
            r is Err,
            io_error_kind_of(r->Err_0) == IoErrorKind::Other,
            io_error_payload_text(r->Err_0) == Some(bind_error_text(self)),
    {
        Err(io_error_other(self.message()))
    }

    /// The error for an environment variable `var`, needed to `reason`, that
    /// is absent, or present but not Unicode.
    pub fn env_var_problem(reason: &'static str, var: &'static str, not_unicode: bool) -> (r:
        BindError)
        ensures
            r matches BindError::EvnVarError { reason: r_reason, var: r_var, fault } && r_reason
                == reason && r_var == var && fault@ == (if not_unicode {
                "not unicode"@
            } else {
                "not present"@
            }),
    {
        let fault = if not_unicode {
            "not unicode"
        } else {
            "not present"
        };
        BindError::EvnVarError { reason, var, fault }
    }
}

/// The text of the custom payload of an I/O error: what `get_ref` gives,
/// written with `Display`; `None` for an error without a payload.
pub uninterp spec fn io_error_payload_text(e: std::io::Error) -> Option<Seq<char>>;

/// `std::io::Error::other`: an I/O error of kind `Other` (whose name is
/// `Other`) with the message as its payload.
#[verifier::external_body]
fn io_error_other(message: String) -> (r: std::io::Error)
    ensures
        io_error_kind_name(r) == "Other"@,
        io_error_payload_text(r) == Some(message@),
{
    std::io::Error::other(message)
}

/// `tokio-listener`-specific accept errors, to be packed in [`std::io::Error::other`].
#[derive(Debug)]
#[non_exhaustive]
pub enum AcceptError {
    /// In inetd mode we have already accepted and served one connection.
    ///
    /// It is not possible to serve another connection, hence this error is used to bubble up from
    /// accept loop and exit process.
    ///
    /// `tokio-listener` takes care not to trigger this error prematurely, when the first connection is still being served.
    InetdPseudosocketAlreadyTaken,
}

impl AcceptError {
    /// The message of the error, as its `Display` writes it.
    pub fn message(&self) -> (r: String)
        ensures
            r@ == "tokio-listener: Cannot serve a second connection in inetd mode"@,
    {
        match self {
            AcceptError::InetdPseudosocketAlreadyTaken => String::from_str(
                "tokio-listener: Cannot serve a second connection in inetd mode",
            ),
        }
    }
}

} // verus!
