//! The commands of an SMTP client, and the replies to lines that are none.
use vstd::prelude::*;

verus! {

/// A reply to the client.
#[derive(Clone, Copy, Debug, PartialEq, Eq)]
pub struct Response {
    /// The three digit code of the reply.
    pub code: u16,
    /// The text after the code.
    pub message: &'static str,
    /// Whether the reply reports an error.
    pub is_error: bool,
}

/// The code of the reply to a line that is no command.
pub const SYNTAX_ERROR: u16 = 500;

/// The code of the reply to a command that lacks a parameter.
pub const MISSING_PARAMETER: u16 = 502;

impl Response {
    /// The reply to a line that is no command.
    pub open spec fn spec_syntax_error() -> Response {
        Response { code: SYNTAX_ERROR, message: "Syntax error", is_error: true }
    }

    /// The reply to a command that lacks a parameter.
    pub open spec fn spec_missing_parameter() -> Response {
        Response { code: MISSING_PARAMETER, message: "Missing parameter", is_error: true }
    }

    /// The reply to a line that is no command.
    #[verifier::when_used_as_spec(spec_syntax_error)]
    pub fn syntax_error() -> (r: Response)
        ensures
            r == Response::spec_syntax_error(),
    {
        Response { code: SYNTAX_ERROR, message: "Syntax error", is_error: true }
    }

    /// The reply to a command that lacks a parameter.
    #[verifier::when_used_as_spec(spec_missing_parameter)]
    pub fn missing_parameter() -> (r: Response)
        ensures
            r == Response::spec_missing_parameter(),
    {
        Response { code: MISSING_PARAMETER, message: "Missing parameter", is_error: true }
    }
}

/// The three texts of a `PLAIN` authentication.
#[derive(Clone, Debug, PartialEq, Eq)]
pub struct Credentials {
    pub authorization_id: String,
    pub authentication_id: String,
    pub password: String,
}

/// A command of the client. Texts are borrowed from the line that was parsed.
#[derive(Clone, Debug, PartialEq, Eq)]
pub enum Cmd<'a> {
    Ehlo { domain: &'a str },
    Helo { domain: &'a str },
    Mail { reverse_path: &'a str, is8bit: bool },
    Rcpt { forward_path: &'a str },
    Data,
    Rset,
    Noop,
    StartTls,
    Quit,
    Vrfy,
    AuthPlain { authorization_id: String, authentication_id: String, password: String },
    AuthPlainEmpty,
    AuthLogin { username: String },
    AuthLoginEmpty,
}

/// The mathematical form of a `Cmd`.
pub enum CmdView {
    Ehlo { domain: Seq<char> },
    Helo { domain: Seq<char> },
    Mail { reverse_path: Seq<char>, is8bit: bool },
    Rcpt { forward_path: Seq<char> },
    Data,
    Rset,
    Noop,
    StartTls,
    Quit,
    Vrfy,
    AuthPlain { authorization_id: Seq<char>, authentication_id: Seq<char>, password: Seq<char> },
    AuthPlainEmpty,
    AuthLogin { username: Seq<char> },
    AuthLoginEmpty,
}

impl<'a> View for Cmd<'a> {
    type V = CmdView;

    open spec fn view(&self) -> CmdView {
        match self {
            Cmd::Ehlo { domain } => CmdView::Ehlo { domain: domain@ },
            Cmd::Helo { domain } => CmdView::Helo { domain: domain@ },
            Cmd::Mail { reverse_path, is8bit } => CmdView::Mail {
                reverse_path: reverse_path@,
                is8bit: *is8bit,
            },
            Cmd::Rcpt { forward_path } => CmdView::Rcpt { forward_path: forward_path@ },
            Cmd::Data => CmdView::Data,
            Cmd::Rset => CmdView::Rset,
            Cmd::Noop => CmdView::Noop,
            Cmd::StartTls => CmdView::StartTls,
            Cmd::Quit => CmdView::Quit,
            Cmd::Vrfy => CmdView::Vrfy,
            Cmd::AuthPlain { authorization_id, authentication_id, password } => CmdView::AuthPlain {
                authorization_id: authorization_id@,
                authentication_id: authentication_id@,
                password: password@,
            },
            Cmd::AuthPlainEmpty => CmdView::AuthPlainEmpty,
            Cmd::AuthLogin { username } => CmdView::AuthLogin { username: username@ },
            Cmd::AuthLoginEmpty => CmdView::AuthLoginEmpty,
        }
    }
}

} // verus!
