use safe_url::{
    Error, SafeContentType, SafeDataType, SafeUrl, XorName, XorUrlBase, NRS_MAP_TYPE_TAG,
};

fn name() -> XorName {
    XorName(*b"12345678901234567890123456789012")
}

fn resource() -> SafeUrl {
    SafeUrl::new(
        name(),
        None,
        0x0eef,
        SafeDataType::PublishedImmutableData,
        SafeContentType::MediaType("text/html".to_string()),
        Some("/dir/file%20name"),
        Some(vec!["a".to_string(), "b".to_string()]),
        Some("k=1&v=3"),
        Some("frag"),
        None,
    )
    .unwrap()
}

#[test]
fn base32_fixture_reads_back() {
    let url = "safe://biaaaatcmrtgq2tmnzyheydcmrtgq2tmnzyheydcmrtgq2tmnzyheydcmvggi6e2srs";
    assert_eq!(url.len() - "safe://".len(), 67);
    let x = SafeUrl::from_xorurl(url).unwrap();
    assert_eq!(x.xorname(), name());
    assert_eq!(x.type_tag(), 0xa632_3c4d_4a32);
    assert_eq!(x.data_type(), SafeDataType::PublishedImmutableData);
    assert_eq!(x.content_type(), SafeContentType::Raw);
    assert_eq!(x.to_base(XorUrlBase::Base32).unwrap(), url);
    assert!(!x.is_nrs());
    assert_eq!(x.nrs_host(), "");
    assert_eq!(x.content_version(), None);
}

#[test]
fn every_alphabet_reads_back() {
    let x = resource();
    for base in [XorUrlBase::Base32z, XorUrlBase::Base32, XorUrlBase::Base64] {
        let url = x.to_base(base).unwrap();
        let y = SafeUrl::from_url(&url).unwrap();
        assert_eq!(y, x);
        assert_eq!(y.to_base(base).unwrap(), url);
    }
}

#[test]
fn unencoded_path_reads_back_encoded() {
    let x = SafeUrl::new(
        name(),
        None,
        0,
        SafeDataType::SafeKey,
        SafeContentType::Raw,
        Some("/file name"),
        None,
        None,
        None,
        None,
    )
    .unwrap();
    assert_eq!(x.path(), "/file name");
    let y = SafeUrl::from_url(&x.to_string()).unwrap();
    assert_eq!(y.path(), "/file%20name");
    assert_ne!(x, y);
}

#[test]
fn alias_form_reads_back() {
    let url = "safe://my.sub.domain/path/file?this=that&v=5#frag";
    let x = SafeUrl::from_nrsurl(url).unwrap();
    assert!(x.is_nrs());
    assert_eq!(x.nrs_host(), "my.sub.domain");
    assert_eq!(x.host(), "my.sub.domain");
    assert_eq!(x.tld(), "domain");
    assert_eq!(x.sub_names(), vec!["my", "sub"]);
    assert_eq!(x.type_tag(), NRS_MAP_TYPE_TAG);
    assert_eq!(x.type_tag(), 1500);
    assert_eq!(x.data_type(), SafeDataType::PublishedSeqAppendOnlyData);
    assert_eq!(x.content_type(), SafeContentType::NrsMapContainer);
    assert_eq!(x.content_version(), Some(5));
    assert_eq!(x.to_string(), url);
    assert_eq!(SafeUrl::from_url(&x.to_string()).unwrap(), x);
    assert_eq!(SafeUrl::from_nrsurl(&x.to_nrsurl_string().unwrap()).unwrap(), x);
}

#[test]
fn alias_hashes_its_last_label() {
    let x = SafeUrl::from_nrsurl("safe://my.sub.domain").unwrap();
    let y = SafeUrl::from_nrsurl("safe://domain").unwrap();
    let z = SafeUrl::from_nrsurl("safe://other").unwrap();
    assert_eq!(x.xorname(), y.xorname());
    assert_ne!(x.xorname(), z.xorname());
    assert_ne!(x.xorname(), XorName(*b"domain\0\0\0\0\0\0\0\0\0\0\0\0\0\0\0\0\0\0\0\0\0\0\0\0\0\0"));
    // SHA3-256 of the empty text, through an alias whose last label is empty
    let e = SafeUrl::from_nrsurl("safe://a.").unwrap();
    assert_eq!(
        e.xorname().0,
        [
            0xa7, 0xff, 0xc6, 0xf8, 0xbf, 0x1e, 0xd7, 0x66, 0x51, 0xc1, 0x47, 0x56, 0xa0, 0x61,
            0xd6, 0x62, 0xf5, 0x80, 0xff, 0x4d, 0xe4, 0x3b, 0x49, 0xfa, 0x82, 0xd8, 0x0a, 0x4b,
            0x80, 0xf8, 0x43, 0x4a
        ]
    );
}

#[test]
fn alias_is_built_from_its_fields() {
    let parsed = SafeUrl::from_nrsurl("safe://my.sub.domain").unwrap();
    let built = SafeUrl::new(
        parsed.xorname(),
        Some("my.sub.domain"),
        NRS_MAP_TYPE_TAG,
        SafeDataType::PublishedSeqAppendOnlyData,
        SafeContentType::NrsMapContainer,
        None,
        Some(vec!["ignored".to_string()]),
        None,
        None,
        None,
    )
    .unwrap();
    assert_eq!(built, parsed);
    assert_eq!(built.sub_names(), vec!["my", "sub"]);
}

#[test]
fn mismatched_alias_hash_cites_both_hashes() {
    let result = SafeUrl::new(
        name(),
        Some("a.b.c"),
        NRS_MAP_TYPE_TAG,
        SafeDataType::PublishedSeqAppendOnlyData,
        SafeContentType::NrsMapContainer,
        None,
        None,
        None,
        None,
        None,
    );
    let computed = SafeUrl::from_nrsurl("safe://c").unwrap().xorname();
    match result {
        Err(Error::InvalidInput(m)) => {
            assert!(m.starts_with("input mis-match. nrs_host `c` hashes to `"));
            assert!(m.contains("does not hash to xorname"));
            assert!(m.contains("313233"));
            let hex: String = computed.0[..3].iter().map(|b| format!("{:02x}", b)).collect();
            assert!(m.contains(&hex));
        }
        other => panic!("{:?}", other),
    }
}

#[test]
fn given_version_overrides_the_query() {
    let x = SafeUrl::new(
        name(),
        None,
        0,
        SafeDataType::SafeKey,
        SafeContentType::Raw,
        None,
        None,
        Some("v=1&a=b"),
        None,
        Some(5),
    )
    .unwrap();
    assert_eq!(x.content_version(), Some(5));
    assert_eq!(x.query_string(), "v=5&a=b");
    assert_eq!(x.query_string_with_separator(), "?v=5&a=b");
}

#[test]
fn query_version_is_taken_where_none_is_given() {
    let x = SafeUrl::new(
        name(),
        None,
        0,
        SafeDataType::SafeKey,
        SafeContentType::Raw,
        Some("no/slash"),
        None,
        Some("v=1&v=9"),
        Some(""),
        None,
    )
    .unwrap();
    assert_eq!(x.content_version(), Some(9));
    assert_eq!(x.query_string(), "v=1&v=9");
    assert_eq!(x.path(), "/no/slash");
    assert_eq!(x.fragment(), "");
    assert_eq!(x.fragment_with_separator(), "");
}

#[test]
fn bad_version_in_the_query_is_refused() {
    for url in ["safe://myname?v=abc", "safe://myname?v=5&v=", "safe://myname?v=-1"] {
        match SafeUrl::from_nrsurl(url) {
            Err(Error::InvalidInput(m)) => {
                assert!(m.starts_with("v param could not be parsed as u64. invalid: '"))
            }
            other => panic!("{:?}", other),
        }
    }
    match SafeUrl::from_nrsurl("safe://myname?v=abc") {
        Err(Error::InvalidInput(m)) => {
            assert_eq!(m, "v param could not be parsed as u64. invalid: 'abc'")
        }
        other => panic!("{:?}", other),
    }
}

#[test]
fn setting_the_version_keeps_the_query_in_step() {
    let mut x = SafeUrl::from_url("safe://myname?a=1").unwrap();
    x.set_content_version(Some(234));
    assert!(x.query_string().ends_with("v=234"));
    assert_eq!(x.query_string(), "a=1&v=234");
    assert_eq!(x.content_version(), Some(234));
    x.set_content_version(Some(u64::MAX));
    assert_eq!(x.query_string(), "a=1&v=18446744073709551615");
    assert_eq!(x.content_version(), Some(u64::MAX));
    x.set_content_version(None);
    assert_eq!(x.query_string(), "a=1");
    assert_eq!(x.query_key("v"), Vec::<String>::new());
    assert_eq!(x.content_version(), None);
}

#[test]
fn refused_version_leaves_the_locator_as_it_was() {
    let mut x = SafeUrl::from_url("safe://myname?a=1&v=7#f").unwrap();
    let before = x.clone();
    match x.set_query_key("v", Some("non-integer")) {
        Err(Error::InvalidInput(m)) => {
            assert_eq!(m, "v param could not be parsed as u64. invalid: 'non-integer'")
        }
        other => panic!("{:?}", other),
    }
    assert_eq!(x, before);
    assert_eq!(x.query_string(), "a=1&v=7");
    assert_eq!(x.content_version(), Some(7));
    assert_eq!(x.to_string(), "safe://myname?a=1&v=7#f");

    assert!(x.set_query_string("b=2&v=x").is_err());
    assert_eq!(x, before);
}

#[test]
fn replacing_the_query_brings_its_version() {
    let mut x = SafeUrl::from_url("safe://myname?v=7").unwrap();
    x.set_query_string("a=b").unwrap();
    assert_eq!(x.content_version(), None);
    assert_eq!(x.query_string(), "a=b");
    x.set_query_string("a=b&v=1&v=2").unwrap();
    assert_eq!(x.content_version(), Some(2));
    assert_eq!(x.query_pairs().len(), 3);
    x.set_query_string("").unwrap();
    assert_eq!(x.content_version(), None);
    assert_eq!(x.to_string(), "safe://myname");
}

#[test]
fn setting_another_name_keeps_the_version() {
    let mut x = SafeUrl::from_url("safe://myname?v=7&name=a&name=b").unwrap();
    x.set_query_key("name", Some("Peggy Sue")).unwrap();
    assert_eq!(x.query_string(), "v=7&name=Peggy+Sue");
    assert_eq!(x.content_version(), Some(7));
    assert_eq!(
        x.query_pairs(),
        vec![("v".to_string(), "7".to_string()), ("name".to_string(), "Peggy Sue".to_string())]
    );
}

#[test]
fn fragment_is_set_and_shown() {
    let mut x = SafeUrl::from_url("safe://myname/p?a=1").unwrap();
    x.set_fragment("top".to_string());
    assert_eq!(x.fragment(), "top");
    assert_eq!(x.fragment_with_separator(), "#top");
    assert_eq!(x.to_string(), "safe://myname/p?a=1#top");
    x.set_fragment(String::new());
    assert_eq!(x.to_string(), "safe://myname/p?a=1");
}

#[test]
fn resource_host_carries_the_labels() {
    let x = resource();
    let host = x.xorurl_host();
    assert!(host.starts_with("a.b.h"));
    assert_eq!(x.host(), host);
    assert_eq!(x.host_to_base(XorUrlBase::Base32z).unwrap(), host);
    assert_eq!(x.tld(), &host["a.b.".len()..]);
    assert_eq!(x.sub_names(), vec!["a", "b"]);
    assert_eq!(x.to_nrsurl_string(), None);
    assert_eq!(x.to_xorurl_string(), format!("safe://{}/dir/file%20name?k=1&v=3#frag", host));
    assert_eq!(x.to_string(), x.to_xorurl_string());
    assert_eq!(x.scheme(), "safe");
    assert_eq!(x.encoding_version(), 1);
    assert!(x.host_to_base(XorUrlBase::Base64).unwrap().starts_with("a.b.m"));
    assert!(x.host_to_base(XorUrlBase::Base32).unwrap().starts_with("a.b.b"));
}

#[test]
fn label_text_is_the_encoded_label() {
    let x = SafeUrl::new(
        name(),
        None,
        0x0eef,
        SafeDataType::SeqMutableData,
        SafeContentType::Wallet,
        None,
        None,
        None,
        None,
        None,
    )
    .unwrap();
    let mut bytes = vec![1u8, 0, 1, 3];
    bytes.extend_from_slice(&name().0);
    bytes.extend_from_slice(&[0x0e, 0xef]);
    assert_eq!(
        x.host_to_base(XorUrlBase::Base32z).unwrap(),
        multibase::encode(multibase::Base::Base32z, &bytes)
    );
    assert_eq!(
        x.host_to_base(XorUrlBase::Base64).unwrap(),
        multibase::encode(multibase::Base::Base64, &bytes)
    );
    assert_eq!(
        SafeUrl::encode_mutable_data(name(), 0x0eef, SafeContentType::Wallet, XorUrlBase::Base32)
            .unwrap(),
        format!("safe://{}", multibase::encode(multibase::Base::Base32, &bytes))
    );
}

#[test]
fn key_url_has_the_shortest_label() {
    let url = SafeUrl::encode_safekey(name(), XorUrlBase::Base32z).unwrap();
    let mut bytes = vec![1u8, 0, 0, 0];
    bytes.extend_from_slice(&name().0);
    assert_eq!(url, format!("safe://{}", multibase::encode(multibase::Base::Base32z, &bytes)));
    let x = SafeUrl::from_url(&url).unwrap();
    assert_eq!(x.data_type(), SafeDataType::SafeKey);
    assert_eq!(x.type_tag(), 0);
}

#[test]
fn crafted_labels_are_refused_with_their_reason() {
    let message = |bytes: &[u8]| {
        let url = format!("safe://{}", multibase::encode(multibase::Base::Base32z, bytes));
        match SafeUrl::from_xorurl(&url) {
            Err(Error::InvalidXorUrl(m)) => m,
            other => panic!("{:?}", other),
        }
    };
    let mut bytes = vec![1u8, 0, 0, 0];
    bytes.extend_from_slice(&name().0);
    bytes[0] = 7;
    assert_eq!(message(&bytes), "Invalid or unsupported XOR-URL encoding version: 7");
    bytes[0] = 1;
    bytes[1] = 0xff;
    bytes[2] = 0xfe;
    assert_eq!(message(&bytes), "Invalid content type encoded in the XOR-URL string: 65534");
    bytes[1] = 0;
    bytes[2] = 0;
    bytes[3] = 200;
    assert_eq!(message(&bytes), "Invalid SAFE data type encoded in the XOR-URL string: 200");
    bytes[3] = 0;
    assert_eq!(message(&bytes[..35]), "Invalid XOR-URL, encoded string too short: 35 bytes");
    bytes.extend_from_slice(&[1; 9]);
    assert_eq!(message(&bytes), "Invalid XOR-URL, encoded string too long: 45 bytes");
    assert!(SafeUrl::from_xorurl(&format!(
        "safe://{}",
        multibase::encode(multibase::Base::Base32z, &bytes[..44])
    ))
    .is_ok());
}

#[test]
fn undecodable_label_falls_back_to_the_alias_form() {
    match SafeUrl::from_xorurl("safe://invalidxor") {
        Err(Error::InvalidXorUrl(m)) => assert!(m.starts_with("Failed to decode XOR-URL: ")),
        other => panic!("{:?}", other),
    }
    let x = SafeUrl::from_url("safe://invalidxor").unwrap();
    assert!(x.is_nrs());
    assert_eq!(x.nrs_host(), "invalidxor");
}

#[test]
fn validate_reads_the_locator_back() {
    let mut x = resource();
    x.set_path("/dir/file name");
    assert_eq!(x.path(), "/dir/file%20name");
    assert!(x.validate().is_ok());
    x.set_path("//");
    assert_eq!(x.path(), "//");
    match x.validate() {
        Err(Error::InvalidXorUrl(m)) => assert_eq!(m, "path contains empty component"),
        other => panic!("{:?}", other),
    }
    let alias = SafeUrl::from_url("safe://my.name/p?v=1").unwrap();
    assert!(alias.validate().is_ok());
}

#[test]
fn media_type_must_be_registered() {
    assert!(SafeUrl::is_media_type_supported("text/html"));
    assert!(SafeUrl::is_media_type_supported("application/json"));
    assert!(!SafeUrl::is_media_type_supported("garbage/trash"));
    assert!(!SafeUrl::is_media_type_supported(""));
    match SafeUrl::encode_immutable_data(
        name(),
        SafeContentType::MediaType("garbage/trash".to_string()),
        XorUrlBase::Base32z,
    ) {
        Err(Error::InvalidMediaType(m)) => assert_eq!(
            m,
            "Media-type 'garbage/trash' not supported. You can use 'SafeContentType::Raw' as the 'content_type' for this type of content"
        ),
        other => panic!("{:?}", other),
    }
}

#[test]
fn copies_are_equal_and_independent() {
    let x = resource();
    let mut y = x.clone();
    assert_eq!(x, y);
    y.set_fragment("other".to_string());
    assert_ne!(x, y);
    assert_eq!(x.fragment(), "frag");
}

#[test]
fn decoded_path_undoes_the_encoding() {
    let mut x = resource();
    x.set_path("/my dir/ü.txt");
    assert_eq!(x.path(), "/my%20dir/%C3%BC.txt");
    assert_eq!(x.path_decoded().unwrap(), "/my dir/ü.txt");
}
