use safe_url::media_types::{
    code_for_media_type, media_type_for_code, FIRST_MEDIA_TYPE_CODE, LAST_MEDIA_TYPE_CODE,
};
use safe_url::{Error, ErrorKind, SafeContentType, SafeDataType, XorName, XorUrlBase};

#[test]
fn base_from_its_code() {
    assert_eq!(XorUrlBase::from_u8(0).unwrap(), XorUrlBase::Base32z);
    assert_eq!(XorUrlBase::from_u8(1).unwrap(), XorUrlBase::Base32);
    assert_eq!(XorUrlBase::from_u8(2).unwrap(), XorUrlBase::Base64);
    match XorUrlBase::from_u8(3) {
        Err(Error::InvalidInput(m)) => assert_eq!(
            m,
            "Invalid XOR URL base encoding code. Supported values are 0=base32z, 1=base32, and 2=base64"
        ),
        other => panic!("{:?}", other),
    }
    assert!(XorUrlBase::from_u8(255).is_err());
}

#[test]
fn base_from_its_name() {
    assert_eq!(XorUrlBase::from_str("base32z").unwrap(), XorUrlBase::Base32z);
    assert_eq!(XorUrlBase::from_str("base32").unwrap(), XorUrlBase::Base32);
    assert_eq!(XorUrlBase::from_str("base64").unwrap(), XorUrlBase::Base64);
    match XorUrlBase::from_str("base58") {
        Err(Error::InvalidInput(m)) => assert_eq!(
            m,
            "Invalid XOR URL base encoding: base58. Supported values are base32z, base32, and base64"
        ),
        other => panic!("{:?}", other),
    }
    assert!(XorUrlBase::from_str("Base32").is_err());
    assert!(XorUrlBase::from_str("").is_err());
}

#[test]
fn base_is_parsed_from_text() {
    assert_eq!("base32z".parse::<XorUrlBase>().unwrap(), XorUrlBase::Base32z);
    assert_eq!("base64".parse::<XorUrlBase>().unwrap(), XorUrlBase::Base64);
    assert!("base16".parse::<XorUrlBase>().is_err());
}

#[test]
fn variants_show_their_names() {
    assert_eq!(XorUrlBase::Base32z.to_string(), "Base32z");
    assert_eq!(XorUrlBase::Base32.to_string(), "Base32");
    assert_eq!(XorUrlBase::Base64.to_string(), "Base64");
    assert_eq!(SafeDataType::SafeKey.to_string(), "SafeKey");
    assert_eq!(
        SafeDataType::UnpublishedUnseqAppendOnlyData.to_string(),
        "UnpublishedUnseqAppendOnlyData"
    );
    assert_eq!(
        SafeDataType::PublishedImmutableData.to_string(),
        format!("{:?}", SafeDataType::PublishedImmutableData)
    );
}

#[test]
fn data_type_from_its_code() {
    let all = [
        SafeDataType::SafeKey,
        SafeDataType::PublishedImmutableData,
        SafeDataType::UnpublishedImmutableData,
        SafeDataType::SeqMutableData,
        SafeDataType::UnseqMutableData,
        SafeDataType::PublishedSeqAppendOnlyData,
        SafeDataType::PublishedUnseqAppendOnlyData,
        SafeDataType::UnpublishedSeqAppendOnlyData,
        SafeDataType::UnpublishedUnseqAppendOnlyData,
    ];
    for (code, data_type) in all.iter().enumerate() {
        assert_eq!(SafeDataType::from_u64(code as u64).unwrap(), *data_type);
        assert_eq!(data_type.code() as usize, code);
    }
    match SafeDataType::from_u64(9) {
        Err(Error::InvalidInput(m)) => assert_eq!(m, "Invalid SafeDataType code"),
        other => panic!("{:?}", other),
    }
    assert!(SafeDataType::from_u64(u64::MAX).is_err());
}

#[test]
fn fixed_content_type_from_its_code() {
    assert_eq!(SafeContentType::from_u16(0).unwrap(), SafeContentType::Raw);
    assert_eq!(SafeContentType::from_u16(1).unwrap(), SafeContentType::Wallet);
    assert_eq!(SafeContentType::from_u16(2).unwrap(), SafeContentType::FilesContainer);
    assert_eq!(SafeContentType::from_u16(3).unwrap(), SafeContentType::NrsMapContainer);
    match SafeContentType::from_u16(4) {
        Err(Error::InvalidInput(m)) => assert_eq!(m, "Invalid Media-type code"),
        other => panic!("{:?}", other),
    }
    assert!(SafeContentType::from_u16(13).is_err());
}

#[test]
fn content_type_has_its_code() {
    assert_eq!(SafeContentType::Raw.value().unwrap(), 0);
    assert_eq!(SafeContentType::Wallet.value().unwrap(), 1);
    assert_eq!(SafeContentType::FilesContainer.value().unwrap(), 2);
    assert_eq!(SafeContentType::NrsMapContainer.value().unwrap(), 3);
    assert_eq!(SafeContentType::MediaType("text/html".to_string()).value().unwrap(), 13);
    match SafeContentType::MediaType("garbage/trash".to_string()).value() {
        Err(Error::Unexpected(m)) => assert_eq!(m, "Unsupported Media-type"),
        other => panic!("{:?}", other),
    }
}

#[test]
fn registry_maps_names_and_codes_both_ways() {
    assert_eq!(FIRST_MEDIA_TYPE_CODE, 4);
    for code in FIRST_MEDIA_TYPE_CODE..=LAST_MEDIA_TYPE_CODE {
        let name = media_type_for_code(code).expect("a name for every code of the range");
        assert_eq!(code_for_media_type(name), Some(code));
    }
    assert_eq!(media_type_for_code(0), None);
    assert_eq!(media_type_for_code(3), None);
    assert_eq!(media_type_for_code(LAST_MEDIA_TYPE_CODE + 1), None);
    assert_eq!(media_type_for_code(u16::MAX), None);
    assert_eq!(code_for_media_type("text/html"), Some(13));
    assert_eq!(code_for_media_type("text/plain"), Some(14));
    assert_eq!(code_for_media_type("garbage/trash"), None);
    assert_eq!(code_for_media_type(""), None);
    assert_eq!(code_for_media_type("TEXT/HTML"), None);
}

#[test]
fn names_compare_by_their_bytes() {
    let a = XorName(*b"12345678901234567890123456789012");
    let mut other = *b"12345678901234567890123456789012";
    assert!(a.same(&XorName(other)));
    other[31] = b'3';
    assert!(!a.same(&XorName(other)));
    other[31] = b'2';
    other[0] = 0;
    assert!(!a.same(&XorName(other)));
}

#[test]
fn content_type_is_copied_whole() {
    let t = SafeContentType::MediaType("image/png".to_string());
    assert_eq!(t.duplicate(), t);
    assert_eq!(SafeContentType::Wallet.duplicate(), SafeContentType::Wallet);
}

#[test]
fn errors_tell_their_class_and_message() {
    let e = Error::InvalidMediaType("m".to_string());
    assert_eq!(e.class(), ErrorKind::InvalidMediaType);
    assert_eq!(e.message(), "m");
    assert_eq!(Error::InvalidXorUrl("x".to_string()).class(), ErrorKind::InvalidXorUrl);
    assert_eq!(Error::InvalidInput("i".to_string()).class(), ErrorKind::InvalidInput);
    assert_eq!(Error::Unexpected("u".to_string()).message(), "u");
}
