use flashtool::error::Error;

#[test]
fn messages_of_text_errors() {
    assert_eq!(
        Error::PythonEnv("missing".to_string()).message(),
        "Python environment error: missing"
    );
    assert_eq!(
        Error::MtkCommand { code: 3, stderr: "boom".to_string() }.message(),
        "MTK command failed (exit 3): boom"
    );
    assert_eq!(
        Error::LoaderNotFound("MT9999".to_string()).message(),
        "Loader not found for chip: MT9999"
    );
    assert_eq!(
        Error::UnsupportedPlatform("plan9".to_string()).message(),
        "Unsupported platform: plan9"
    );
    assert_eq!(Error::Zip("bad".to_string()).message(), "Zip extraction error: bad");
}

#[test]
fn message_of_negative_exit_code() {
    assert_eq!(
        Error::MtkCommand { code: -2147483648, stderr: String::new() }.message(),
        "MTK command failed (exit -2147483648): "
    );
}

#[test]
fn message_of_io_error() {
    let e = std::io::Error::new(std::io::ErrorKind::PermissionDenied, "denied");
    assert_eq!(Error::Io(e).message(), "I/O error: denied");
}
