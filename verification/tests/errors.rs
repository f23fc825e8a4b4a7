use penumbra::error::{Error, XFlashError, XFlashErrorKind, XmlError, XmlErrorKind};

#[test]
fn from_code_keeps_the_raw_code() {
    let e = XFlashError::from_code(0xC0010001);
    assert_eq!(e.code, 0xC0010001);
    assert_eq!(e.kind, XFlashErrorKind::Error);

    let e = XFlashError::from_code(0xC0070004);
    assert_eq!(e.code, 0xC0070004);
    assert_eq!(e.kind, XFlashErrorKind::DaHashMismatch);

    let e = XFlashError::from_code(0xC002004A);
    assert_eq!(e.code, 0xC002004A);
    assert_eq!(e.kind, XFlashErrorKind::RsaOaepFailed);
}

#[test]
fn from_code_unknown_codes_fall_through() {
    let e = XFlashError::from_code(0x12345678);
    assert_eq!(e.code, 0x12345678);
    assert_eq!(e.kind, XFlashErrorKind::Unknown);
}

#[test]
fn severity_and_domain_decode_by_the_bit_layout() {
    let e = XFlashError::from_code(0xC0070004);
    assert_eq!(e.severity(), 3);
    assert_eq!(e.domain(), 7);
    assert_eq!(e.case_code(), 4);

    let e = XFlashError::from_code(0x40020001);
    assert_eq!(e.severity(), 1);
    assert_eq!(e.domain(), 2);
    assert_eq!(e.case_code(), 1);

    let kinds = [
        XFlashErrorKind::Abort,
        XFlashErrorKind::SeccfgMagicIncorrect,
        XFlashErrorKind::BromCmdFailed,
        XFlashErrorKind::PreloaderInvalid,
        XFlashErrorKind::EfuseBlown,
    ];
    for k in kinds {
        let e = XFlashError::from_code(k.code());
        assert_eq!(e.kind, k);
        assert_eq!(e.severity(), 3);
        assert!(e.domain() >= 1 && e.domain() <= 8);
    }
}

#[test]
fn xml_error_from_message_classifies_statuses() {
    let e = XmlError::from_message(b"ERR!UNSUPPORTED");
    assert_eq!(e.kind, XmlErrorKind::UnsupportedCmd);
    assert_eq!(e.message, "ERR!UNSUPPORTED");

    let e = XmlError::from_message(b"ERR!CANCEL\0\0");
    assert_eq!(e.kind, XmlErrorKind::Cancel);
    assert_eq!(e.message, "Cancelled");

    let e = XmlError::from_message(b"ERR!SOMETHING\0");
    assert_eq!(e.kind, XmlErrorKind::UnsupportedCmd);
    assert_eq!(e.message, "ERR!SOMETHING");

    let e = XmlError::from_message(&[0xFF, 0xFE]);
    assert_eq!(e.kind, XmlErrorKind::UnsupportedCmd);
    assert_eq!(e.message, "Invalid UTF-8");
}

#[test]
fn error_constructors_keep_their_kind() {
    assert!(matches!(Error::io("x"), Error::Io(_)));
    assert!(matches!(Error::conn("x"), Error::Connection(_)));
    assert!(matches!(Error::proto("x"), Error::Protocol(_)));
    assert!(matches!(Error::penumbra("x"), Error::Penumbra(_)));
}
