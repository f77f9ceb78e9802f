use hmac::Mac;
use tcapi::{build_request, canonical_request, derive_signature, string_to_sign};
use tcapi::{Access, Action, BuildError, HexBuf, Service, Style, TS_MAX};

fn sample_access() -> Access {
    Access {
        secret_id: String::from("AKIDexample"),
        secret_key: String::from("secret"),
    }
}

fn sample_action() -> Action {
    Action {
        service: Service {
            service: String::from("cvm"),
            host: String::from("cvm.tencentcloudapi.com"),
            version: String::from("2017-03-12"),
        },
        style: Style::PostJson,
        action: String::from("DescribeInstances"),
    }
}

fn reference_hmac(key: &[u8], data: &[u8]) -> Vec<u8> {
    let mut mac = hmac::Hmac::<sha2::Sha256>::new_from_slice(key).unwrap();
    mac.update(data);
    mac.finalize().into_bytes().to_vec()
}

#[test]
fn determinism_same_inputs_same_authorization() {
    let payload = b"{\"a\":1}";
    let r1 = build_request(payload, 1700000000, &sample_access(), &sample_action()).unwrap();
    let r2 = build_request(payload, 1700000000, &sample_access(), &sample_action()).unwrap();
    assert_eq!(r1.headers[0].1, r2.headers[0].1);
    assert_eq!(r1.method, r2.method);
    assert_eq!(r1.uri, r2.uri);
    assert_eq!(r1.body, r2.body);
}

#[test]
fn method_and_uri_are_fixed() {
    let r = build_request(b"{}", 1700000000, &sample_access(), &sample_action()).unwrap();
    assert_eq!(r.method, "POST");
    assert_eq!(r.uri, "/");
}

#[test]
fn canonical_request_fixed_lines_and_empty_query() {
    let cr = canonical_request("cvm.tencentcloudapi.com", "DescribeInstances", b"{}");
    let text = String::from_utf8(cr).unwrap();
    assert!(text.starts_with("POST\n/\n\n"));
    let lines: Vec<&str> = text.split('\n').collect();
    assert_eq!(lines[0], "POST");
    assert_eq!(lines[1], "/");
    assert_eq!(lines[2], "");
}

#[test]
fn canonical_request_layout_and_lowercased_action() {
    let cr = canonical_request("cvm.tencentcloudapi.com", "DescribeInstances", b"{\"a\":1}");
    let text = String::from_utf8(cr).unwrap();
    let expected_hash = hex::encode(<sha2::Sha256 as sha2::Digest>::digest(b"{\"a\":1}"));
    let expected = format!(
        "POST\n/\n\ncontent-type:application/json; charset=utf-8\nhost:cvm.tencentcloudapi.com\nx-tc-action:describeinstances\n\ncontent-type;host;x-tc-action\n{}",
        expected_hash
    );
    assert_eq!(text, expected);
}

#[test]
fn hashed_payload_matches_reference_sha256() {
    let payload = b"{\"a\":1}";
    let cr = canonical_request("h", "A", payload);
    let text = String::from_utf8(cr).unwrap();
    let expected = hex::encode(<sha2::Sha256 as sha2::Digest>::digest(payload));
    assert!(text.ends_with(&expected));
    assert_eq!(
        expected,
        "015abd7f5cc57a2dd94b7590f04ad8084273905ee33ec5cebeae62276a97f862"
    );
}

#[test]
fn hashed_empty_payload() {
    let cr = canonical_request("h", "A", b"");
    let text = String::from_utf8(cr).unwrap();
    let expected = hex::encode(<sha2::Sha256 as sha2::Digest>::digest(b""));
    assert!(text.ends_with(&expected));
}

#[test]
fn key_chain_known_answer() {
    let sts = b"test-string-to-sign";
    let got = derive_signature("secret", "2023-11-14", "cvm", sts);
    let k_date = reference_hmac(b"TC3secret", b"2023-11-14");
    let k_service = reference_hmac(&k_date, b"cvm");
    let k_signing = reference_hmac(&k_service, b"tc3_request");
    let expected = hex::encode(reference_hmac(&k_signing, sts));
    assert_eq!(got, expected);
}

#[test]
fn string_to_sign_layout() {
    let cr = canonical_request("cvm.tencentcloudapi.com", "DescribeInstances", b"{\"a\":1}");
    let sts = string_to_sign(1700000000, "2023-11-14", "cvm", &cr);
    let text = String::from_utf8(sts).unwrap();
    let expected_hash = hex::encode(<sha2::Sha256 as sha2::Digest>::digest(&cr));
    let expected = format!(
        "TC3-HMAC-SHA256\n1700000000\n2023-11-14/cvm/tc3_request\n{}",
        expected_hash
    );
    assert_eq!(text, expected);
}

#[test]
fn header_completeness() {
    let r = build_request(b"{\"a\":1}", 1700000000, &sample_access(), &sample_action()).unwrap();
    let names: Vec<&str> = r.headers.iter().map(|h| h.0.as_str()).collect();
    assert_eq!(
        names,
        vec![
            "Authorization",
            "Content-Type",
            "Host",
            "X-TC-Action",
            "X-TC-Timestamp",
            "X-TC-Version"
        ]
    );
    for i in 0..names.len() {
        for j in 0..i {
            assert_ne!(names[i], names[j]);
        }
    }
    let authorization = &r.headers[0].1;
    assert!(authorization.contains("SignedHeaders=content-type;host;x-tc-action"));
}

#[test]
fn header_values() {
    let r = build_request(b"{\"a\":1}", 1700000000, &sample_access(), &sample_action()).unwrap();
    assert_eq!(r.headers[1].1, "application/json; charset=utf-8");
    assert_eq!(r.headers[2].1, "cvm.tencentcloudapi.com");
    assert_eq!(r.headers[3].1, "DescribeInstances");
    assert_eq!(r.headers[4].1, "1700000000");
    assert_eq!(r.headers[5].1, "2017-03-12");
    assert_eq!(r.body, b"{\"a\":1}".to_vec());
}

#[test]
fn end_to_end_regression_vector() {
    let r = build_request(b"{\"a\":1}", 1700000000, &sample_access(), &sample_action()).unwrap();
    let authorization = &r.headers[0].1;
    assert!(authorization.contains("/2023-11-14/"));
    assert_eq!(
        authorization,
        "TC3-HMAC-SHA256 Credential=AKIDexample/2023-11-14/cvm/tc3_request, \
         SignedHeaders=content-type;host;x-tc-action, \
         Signature=94717d5c1debb0c042940e01dba3366e389e478ea8490bf0ac7b1ca59247635a"
    );
}

#[test]
fn end_to_end_matches_independent_computation() {
    let payload = b"{\"a\":1}";
    let r = build_request(payload, 1700000000, &sample_access(), &sample_action()).unwrap();
    let canonical = format!(
        "POST\n/\n\ncontent-type:application/json; charset=utf-8\nhost:cvm.tencentcloudapi.com\nx-tc-action:describeinstances\n\ncontent-type;host;x-tc-action\n{}",
        hex::encode(<sha2::Sha256 as sha2::Digest>::digest(payload))
    );
    let sts = format!(
        "TC3-HMAC-SHA256\n1700000000\n2023-11-14/cvm/tc3_request\n{}",
        hex::encode(<sha2::Sha256 as sha2::Digest>::digest(canonical.as_bytes()))
    );
    let k_date = reference_hmac(b"TC3secret", b"2023-11-14");
    let k_service = reference_hmac(&k_date, b"cvm");
    let k_signing = reference_hmac(&k_service, b"tc3_request");
    let signature = hex::encode(reference_hmac(&k_signing, sts.as_bytes()));
    let expected = format!(
        "TC3-HMAC-SHA256 Credential=AKIDexample/2023-11-14/cvm/tc3_request, SignedHeaders=content-type;host;x-tc-action, Signature={}",
        signature
    );
    assert_eq!(r.headers[0].1, expected);
}

#[test]
fn timestamp_out_of_range_is_an_error() {
    let r = build_request(b"{}", u64::MAX, &sample_access(), &sample_action());
    assert_eq!(r.err(), Some(BuildError::InvalidTimestamp));
}

#[test]
fn timestamp_range_boundary() {
    assert!(build_request(b"{}", TS_MAX, &sample_access(), &sample_action()).is_ok());
    let over = build_request(b"{}", TS_MAX + 1, &sample_access(), &sample_action());
    assert_eq!(over.err(), Some(BuildError::InvalidTimestamp));
    assert!(chrono::DateTime::from_timestamp(TS_MAX as i64, 0).is_some());
    assert!(chrono::DateTime::from_timestamp(TS_MAX as i64 + 1, 0).is_none());
}

#[test]
fn timestamp_zero_is_the_epoch() {
    let r = build_request(b"{}", 0, &sample_access(), &sample_action()).unwrap();
    assert!(r.headers[0].1.contains("/1970-01-01/"));
    assert_eq!(r.headers[4].1, "0");
}

#[test]
fn hex_buffer_encodes_a_digest() {
    let digest = <sha2::Sha256 as sha2::Digest>::digest(b"abc").to_vec();
    let mut buf = HexBuf::new();
    let got = buf.hex(&digest).to_string();
    assert_eq!(got, hex::encode(&digest));
    assert_eq!(got.len(), 64);
}

#[test]
fn hex_buffer_reuse_overwrites() {
    let d1 = <sha2::Sha256 as sha2::Digest>::digest(b"one").to_vec();
    let d2 = <sha2::Sha256 as sha2::Digest>::digest(b"two").to_vec();
    let mut buf = HexBuf::new();
    let first = buf.hex(&d1).to_string();
    let second = buf.hex(&d2).to_string();
    assert_eq!(first, hex::encode(&d1));
    assert_eq!(second, hex::encode(&d2));
    assert_ne!(first, second);
}
