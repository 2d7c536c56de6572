//! The ways in which a request to the agent can fail.

use vstd::prelude::*;

use crate::text::{chars_of, push_str, string_of};

verus! {

/// Why a request failed.
#[derive(Debug)]
pub enum FwcError {
    ApiKeyNotFound,
    ApiKeyNotValid,
    NotAllowedIP,
    NotAllowedParameter,
    DirNotFound,
    DstDirFirst,
    AtLeastOneFile,
    TooBigFile,
    TooManyFiles,
    LessFilesThanExpected,
    MoreFilesThanExpected,
    NotExpectedFileName,
    OnlyOneFileExpected,
    /// The command ran and ended with an exit status other than 0.
    CmdExitStatusNotZero,
    /// As many streaming sessions are open as there may be.
    WebSocketTooMany,
    /// No streaming session has the identifier given.
    WebSocketIdNotFound,
    /// The text given is no identifier of a streaming session.
    WebSocketIdBad,
    Internal(&'static str),
    /// A value of the request or of the settings is not as it must be; the
    /// text says which.
    Validation(String),
    /// Reading or writing failed; the text is the operating system's.
    IOError(String),
    /// Work handed to another thread was abandoned.
    BlockingError(String),
    /// The command could not be started.
    PopenError(String),
    /// The collector could not be reached.
    SendError(String),
}

/// The text that describes an error to the caller.
pub open spec fn message_text(e: FwcError) -> Seq<char> {
    match e {
        FwcError::ApiKeyNotFound => "API key not found"@,
        FwcError::ApiKeyNotValid => "Invalid API key"@,
        FwcError::NotAllowedIP => "Authorization error, access from your IP is not allowed"@,
        FwcError::NotAllowedParameter => "Not allowed parameter in request"@,
        FwcError::DirNotFound => "Directory not found"@,
        FwcError::DstDirFirst
            => "Parameter dst_dir must come before any file in the multipart stream"@,
        FwcError::AtLeastOneFile => "At least one file must be included in the request"@,
        FwcError::TooBigFile => "Too big file"@,
        FwcError::TooManyFiles => "Too many files"@,
        FwcError::LessFilesThanExpected => "Less files than expected"@,
        FwcError::MoreFilesThanExpected => "More files than expected"@,
        FwcError::NotExpectedFileName => "File name was not the expected one"@,
        FwcError::OnlyOneFileExpected => "Only one file expected in request"@,
        FwcError::CmdExitStatusNotZero => "Command exit status not 0"@,
        FwcError::WebSocketTooMany => "Too many WebSockets"@,
        FwcError::WebSocketIdNotFound => "WebSocket id not found"@,
        FwcError::WebSocketIdBad => "Bad WebSocket id"@,
        FwcError::Internal(text) => text@,
        FwcError::Validation(text) => text@,
        FwcError::IOError(text) => text@,
        FwcError::BlockingError(text) => text@,
        FwcError::PopenError(text) => text@,
        FwcError::SendError(text) => text@,
    }
}

/// The HTTP status that an error is answered with: 400 for a request that is
/// not as it must be, 403 for a caller that is not let in, 500 for the rest.
pub open spec fn status_of(e: FwcError) -> u16 {
    match e {
        FwcError::NotAllowedParameter
        | FwcError::AtLeastOneFile
        | FwcError::Validation(_)
        | FwcError::TooBigFile
        | FwcError::TooManyFiles
        | FwcError::LessFilesThanExpected
        | FwcError::MoreFilesThanExpected
        | FwcError::NotExpectedFileName
        | FwcError::DstDirFirst => 400,
        FwcError::ApiKeyNotValid | FwcError::ApiKeyNotFound | FwcError::NotAllowedIP => 403,
        _ => 500,
    }
}

/// The body that an error is answered with: a JSON object with the message.
pub open spec fn response_text(e: FwcError) -> Seq<char> {
    "{\"message\":\""@ + message_text(e) + "\"}"@
}

impl FwcError {
    /// The text that describes the error to the caller.
    pub fn message(&self) -> (text: String)
        ensures
            text@ == message_text(*self),
    {
        let text: &str = match self {
            FwcError::ApiKeyNotFound => "API key not found",
            FwcError::ApiKeyNotValid => "Invalid API key",
            FwcError::NotAllowedIP => "Authorization error, access from your IP is not allowed",
            FwcError::NotAllowedParameter => "Not allowed parameter in request",
            FwcError::DirNotFound => "Directory not found",
            FwcError::DstDirFirst
                => "Parameter dst_dir must come before any file in the multipart stream",
            FwcError::AtLeastOneFile => "At least one file must be included in the request",
            FwcError::TooBigFile => "Too big file",
            FwcError::TooManyFiles => "Too many files",
            FwcError::LessFilesThanExpected => "Less files than expected",
            FwcError::MoreFilesThanExpected => "More files than expected",
            FwcError::NotExpectedFileName => "File name was not the expected one",
            FwcError::OnlyOneFileExpected => "Only one file expected in request",
            FwcError::CmdExitStatusNotZero => "Command exit status not 0",
            FwcError::WebSocketTooMany => "Too many WebSockets",
            FwcError::WebSocketIdNotFound => "WebSocket id not found",
            FwcError::WebSocketIdBad => "Bad WebSocket id",
            FwcError::Internal(text) => text,
            FwcError::Validation(text) => text.as_str(),
            FwcError::IOError(text) => text.as_str(),
            FwcError::BlockingError(text) => text.as_str(),
            FwcError::PopenError(text) => text.as_str(),
            FwcError::SendError(text) => text.as_str(),
        };
        string_of(&chars_of(text))
    }

    /// The HTTP status that the error is answered with.
    pub fn status_code(&self) -> (code: u16)
        ensures
            code == status_of(*self),
    {
        match self {
            FwcError::NotAllowedParameter
            | FwcError::AtLeastOneFile
            | FwcError::Validation(_)
            | FwcError::TooBigFile
            | FwcError::TooManyFiles
            | FwcError::LessFilesThanExpected
            | FwcError::MoreFilesThanExpected
            | FwcError::NotExpectedFileName
            | FwcError::DstDirFirst => 400,
            FwcError::ApiKeyNotValid | FwcError::ApiKeyNotFound | FwcError::NotAllowedIP => 403,
            _ => 500,
        }
    }

    /// The body that the error is answered with.
    pub fn error_response(&self) -> (body: String)
        ensures
            body@ == response_text(*self),
    {
        let mut body = chars_of("{\"message\":\"");
        push_str(&mut body, self.message().as_str());
        push_str(&mut body, "\"}");
        string_of(&body)
    }
}

} // verus!
