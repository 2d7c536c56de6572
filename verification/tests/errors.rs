use fwcloud_agent::errors::FwcError;

#[test]
fn status_of_each_error() {
    for e in [
        FwcError::NotAllowedParameter,
        FwcError::AtLeastOneFile,
        FwcError::Validation(String::from("x")),
        FwcError::TooBigFile,
        FwcError::TooManyFiles,
        FwcError::LessFilesThanExpected,
        FwcError::MoreFilesThanExpected,
        FwcError::NotExpectedFileName,
        FwcError::DstDirFirst,
    ] {
        assert_eq!(e.status_code(), 400);
    }
    for e in [
        FwcError::ApiKeyNotValid,
        FwcError::ApiKeyNotFound,
        FwcError::NotAllowedIP,
    ] {
        assert_eq!(e.status_code(), 403);
    }
    for e in [
        FwcError::DirNotFound,
        FwcError::OnlyOneFileExpected,
        FwcError::CmdExitStatusNotZero,
        FwcError::WebSocketTooMany,
        FwcError::WebSocketIdNotFound,
        FwcError::WebSocketIdBad,
        FwcError::Internal("x"),
        FwcError::IOError(String::from("x")),
        FwcError::BlockingError(String::from("x")),
        FwcError::PopenError(String::from("x")),
        FwcError::SendError(String::from("x")),
    ] {
        assert_eq!(e.status_code(), 500);
    }
}

#[test]
fn message_of_each_error() {
    assert_eq!(FwcError::ApiKeyNotFound.message(), "API key not found");
    assert_eq!(FwcError::ApiKeyNotValid.message(), "Invalid API key");
    assert_eq!(
        FwcError::NotAllowedIP.message(),
        "Authorization error, access from your IP is not allowed"
    );
    assert_eq!(
        FwcError::NotAllowedParameter.message(),
        "Not allowed parameter in request"
    );
    assert_eq!(FwcError::DirNotFound.message(), "Directory not found");
    assert_eq!(
        FwcError::DstDirFirst.message(),
        "Parameter dst_dir must come before any file in the multipart stream"
    );
    assert_eq!(
        FwcError::AtLeastOneFile.message(),
        "At least one file must be included in the request"
    );
    assert_eq!(FwcError::TooBigFile.message(), "Too big file");
    assert_eq!(FwcError::TooManyFiles.message(), "Too many files");
    assert_eq!(
        FwcError::LessFilesThanExpected.message(),
        "Less files than expected"
    );
    assert_eq!(
        FwcError::MoreFilesThanExpected.message(),
        "More files than expected"
    );
    assert_eq!(
        FwcError::NotExpectedFileName.message(),
        "File name was not the expected one"
    );
    assert_eq!(
        FwcError::OnlyOneFileExpected.message(),
        "Only one file expected in request"
    );
    assert_eq!(FwcError::Internal("Popen error").message(), "Popen error");
    assert_eq!(
        FwcError::IOError(String::from("No such file or directory (os error 2)")).message(),
        "No such file or directory (os error 2)"
    );
}

#[test]
fn body_of_an_error() {
    assert_eq!(
        FwcError::ApiKeyNotFound.error_response(),
        "{\"message\":\"API key not found\"}"
    );
    assert_eq!(
        FwcError::Validation(String::from("action: Invalid plugin action")).error_response(),
        "{\"message\":\"action: Invalid plugin action\"}"
    );
}
