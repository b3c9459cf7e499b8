use mkcert_rs::error::Error;

#[test]
fn message_of_each_error() {
    assert_eq!(
        Error::Crypto("no entropy".to_string()).message(),
        "Cryptographic failure: no entropy"
    );
    assert_eq!(Error::Parse("bad PEM".to_string()).message(), "Malformed input: bad PEM");
    assert_eq!(Error::Io("disk full".to_string()).message(), "IO error: disk full");
    assert_eq!(
        Error::TrustStore("exit status 1".to_string()).message(),
        "The system trust store refused the change: exit status 1"
    );
    assert_eq!(
        Error::NotInstalled.message(),
        "CA thumbprint not found in config. Cannot uninstall. Was the CA ever installed?"
    );
    assert_eq!(
        Error::NotFound.message(),
        "The root key or certificate is not on disk. Install the CA first."
    );
}

#[test]
fn message_keeps_the_report_verbatim() {
    let report = "Error: line one\n  line two\t\u{e9}";
    assert_eq!(
        Error::TrustStore(report.to_string()).message(),
        format!("The system trust store refused the change: {}", report)
    );
}
