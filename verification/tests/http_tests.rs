use base64::Engine;
use tunnel::config::Config;
use tunnel::http::{
    header_name_valid, header_to_str, header_value_valid, int_error_text, parse_u64, status_text,
    HttpMethod, IntErrorKind,
};
use tunnel::protocol::tus::types::{TusConfig as UploadTusConfig, TusError as UploadTusError, TusUploadOptions};
use tunnel::protocol::tus::upload::{TusUploadBuilder, TusUploadProtocol};
use tunnel::transfer::errors::TransferError;
use tunnel::transfer::types::TransferConfig;
use tunnel::tus::client::{encode_metadata, TusClient, UploadStrategy};
use tunnel::tus::errors::TusError;
use tunnel::tus::metadata::Metadata;
use tunnel::tus::tus::{TusConfig, TusProtocol, TusProtocolBuilder};
use tunnel::tus::upload::TusTaskBuilder;
use tunnel::uploaders::chunked::{ChunkInfo, ChunkedConfig, ChunkedUploader};
use tunnel::uploaders::simple::{SimpleConfig, SimpleUploader};

fn b64(s: &str) -> String {
    base64::engine::general_purpose::STANDARD.encode(s)
}

fn pairs(v: &[(&str, &str)]) -> Vec<(String, String)> {
    v.iter().map(|(a, b)| (a.to_string(), b.to_string())).collect()
}

fn dev_config(token: &str) -> Config {
    Config {
        endpoint: "http://localhost:1080/files/".to_string(),
        file_path: "./a.bin".to_string(),
        file_name: "a.bin".to_string(),
        token: token.to_string(),
    }
}

#[test]
fn parse_u64_agrees_with_std() {
    let samples = [
        "0", "42", "+7", "-1", "+", "-", "", "007", "18446744073709551615", "18446744073709551616",
        "99999999999999999999x", "12a", " 1", "1 ", "١٢", "+-3",
    ];
    for s in samples.iter() {
        let ours = parse_u64(s);
        let std = s.parse::<u64>();
        match (ours, std) {
            (Ok(a), Ok(b)) => assert_eq!(a, b, "{:?}", s),
            (Err(k), Err(e)) => assert_eq!(int_error_text(k), e.to_string(), "{:?}", s),
            (a, b) => panic!("{:?}: {:?} vs {:?}", s, a, b),
        }
    }
    assert_eq!(parse_u64(""), Err(IntErrorKind::Empty));
    assert_eq!(parse_u64("18446744073709551616"), Err(IntErrorKind::PosOverflow));
    assert_eq!(parse_u64("12a"), Err(IntErrorKind::InvalidDigit));
}

#[test]
fn header_checks_agree_with_the_http_library() {
    let names = ["Tus-Resumable", "token", "", "bad name", "x:y", "ok!#$%&'*+-.^_`|~", "é"];
    for n in names.iter() {
        assert_eq!(header_name_valid(n), reqwest::header::HeaderName::from_bytes(n.as_bytes()).is_ok(), "{:?}", n);
    }
    let values = ["1.0.0", "", "a\tb", "line\nbreak", "caf\u{e9}", "del\u{7f}", "x y"];
    for v in values.iter() {
        assert_eq!(header_value_valid(v), reqwest::header::HeaderValue::from_str(v).is_ok(), "{:?}", v);
    }
}

#[test]
fn header_text_agrees_with_to_str() {
    let samples: [&[u8]; 4] = [b"1024", b"http://x/y", b"caf\xc3\xa9", b"a\tb"];
    for b in samples.iter() {
        let hv = reqwest::header::HeaderValue::from_bytes(b).unwrap();
        assert_eq!(header_to_str(b), hv.to_str().ok().map(|s| s.to_string()));
    }
}

#[test]
fn status_text_is_the_status_display() {
    for code in [200u16, 201, 204, 404, 460, 500, 999].iter() {
        assert_eq!(status_text(*code), reqwest::StatusCode::from_u16(*code).unwrap().to_string());
    }
    assert_eq!(status_text(404), "404 Not Found");
}

#[test]
fn metadata_header_encodes_each_value() {
    let mut m = Metadata::new();
    assert_eq!(m.to_header(), "");
    m.filename = Some("a.txt".to_string());
    m.filetype = Some("text/plain".to_string());
    m.custom = pairs(&[("owner", "me")]);
    assert_eq!(
        m.to_header(),
        format!("filename {},filetype {},owner {}", b64("a.txt"), b64("text/plain"), b64("me"))
    );
    assert_eq!(m.to_header(), "filename YS50eHQ=,filetype dGV4dC9wbGFpbg==,owner bWU=");
}

#[test]
fn client_metadata_encoding() {
    assert_eq!(encode_metadata(&pairs(&[("filename", "a.txt"), ("k", "")])), "filename YS50eHQ=,k ");
    assert_eq!(encode_metadata(&Vec::new()), "");
}

#[test]
fn client_creation_request_and_answer() {
    let client = TusClient::new("http://localhost:1080/files/", 1024);
    assert_eq!(client.strategy, UploadStrategy::Streaming);
    assert_eq!(client.speed_limit, None);
    let q = client.create_upload_request(10, Some(pairs(&[("filename", "a")]))).unwrap();
    assert_eq!(q.method, HttpMethod::Post);
    assert_eq!(q.url, "http://localhost:1080/files/");
    assert_eq!(
        q.appended,
        pairs(&[("Tus-Resumable", "1.0.0"), ("Upload-Length", "10"), ("Upload-Metadata", "filename YQ==")])
    );
    let bad = client.create_upload_request(10, Some(pairs(&[("bad\nkey", "a")])));
    assert_eq!(bad.err(), Some(TusError::InvalidHeaderValue("failed to parse header value".to_string())));

    assert_eq!(
        client.create_upload_result(201, Some(b"http://h/files/1".to_vec())),
        Ok("http://h/files/1".to_string())
    );
    assert_eq!(
        client.create_upload_result(201, Some(b"/files/abc".to_vec())),
        Ok("http://localhost:1080/files/abc".to_string())
    );
    assert_eq!(
        client.create_upload_result(500, None),
        Err(TusError::ServerError { status_code: 500, message: "Failed to create upload".to_string() })
    );
    assert_eq!(
        client.create_upload_result(201, None),
        Err(TusError::ServerError { status_code: 201, message: "Not 'location' header in response".to_string() })
    );
    assert_eq!(
        client.create_upload_result(201, Some(b"\xc3\xa9".to_vec())),
        Err(TusError::ServerError {
            status_code: 201,
            message: "Failed to parse location header: failed to convert header to a str".to_string()
        })
    );
    let broken = TusClient::new("not a url", 1);
    assert_eq!(
        broken.create_upload_result(201, Some(b"/x".to_vec())),
        Err(TusError::ParamError("Invalid url: \"not a url\"".to_string()))
    );
}

#[test]
fn client_offsets_and_streaming() {
    assert_eq!(TusClient::parse_offset_header(200, Some(b"512".to_vec())), Ok(512));
    assert_eq!(
        TusClient::parse_offset_header(200, None),
        Err(TusError::ServerError { status_code: 200, message: "No 'upload-offset' header in response".to_string() })
    );
    assert_eq!(
        TusClient::parse_offset_header(204, Some(b"x".to_vec())),
        Err(TusError::ServerError {
            status_code: 204,
            message: "Failed to parse header <Upload-Offset> to number: invalid digit found in string".to_string()
        })
    );
    assert_eq!(
        TusClient::get_upload_offset_result(409, Some(b"1".to_vec())),
        Err(TusError::ServerError { status_code: 409, message: "Failed to get upload offset".to_string() })
    );
    assert_eq!(TusClient::get_upload_offset_result(204, Some(b"7".to_vec())), Ok(7));

    let client = TusClient::new("http://h/files/", 1);
    let q = client.upload_file_streaming_request("http://h/files/1", 100, 40);
    assert_eq!(q.method, HttpMethod::Patch);
    assert_eq!(
        q.appended,
        pairs(&[
            ("Tus-Resumable", "1.0.0"),
            ("Content-Type", "application/offset+octet-stream"),
            ("Content-Length", "60"),
            ("Upload-Offset", "40")
        ])
    );
    assert_eq!(
        TusClient::upload_file_streaming_result("http://h/files/1", 100, 204, Some(b"100".to_vec())),
        Ok("http://h/files/1".to_string())
    );
    assert_eq!(
        TusClient::upload_file_streaming_result("u", 100, 204, Some(b"90".to_vec())),
        Err(TusError::UploadIncomplete { expected: 100, actual: 90 })
    );
    assert_eq!(
        TusClient::upload_file_streaming_result("u", 100, 500, None),
        Err(TusError::ServerError {
            status_code: 500,
            message: "Upload failed with status 500 Internal Server Error".to_string()
        })
    );
    assert_eq!(TusClient::cancel_upload_result(404), Ok(()));
    assert_eq!(TusClient::cancel_upload_result(204), Ok(()));
    assert_eq!(
        TusClient::cancel_upload_result(500),
        Err(TusError::ServerError { status_code: 500, message: "Failed to cancel upload".to_string() })
    );
    let dev = dev_config("secret");
    let h = TusClient::create_headers(&dev);
    assert_eq!(
        h,
        pairs(&[
            ("Tus-Resumable", "1.0.0"),
            ("Authorization", "secret"),
            ("mac-identifier", "media-web"),
            ("mac-organization", "3")
        ])
    );
    let d = TusClient::cancel_upload_request("http://h/files/1", &dev);
    assert_eq!(d.method, HttpMethod::Delete);
    assert_eq!(d.headers, h);
}

#[test]
fn transfer_protocol_requests_and_answers() {
    let mut config = TusConfig::new("http://localhost:1080/files/".to_string());
    assert_eq!(config.buffer_size, 2 * 1024 * 1024);
    config.headers = pairs(&[("Authorization", "t")]);
    let protocol = TusProtocol::new(config);
    let q = protocol.create_upload_request(5).unwrap();
    assert_eq!(q.headers, pairs(&[("Tus-Resumable", "1.0.0"), ("Upload-Length", "5"), ("Authorization", "t")]));
    assert_eq!(
        protocol.create_upload_result(201, Some(b"/files/9".to_vec())),
        Ok(url::Url::parse("http://localhost:1080/files/").unwrap().join("/files/9").unwrap().to_string())
    );
    assert_eq!(
        protocol.create_upload_result(400, None),
        Err(TransferError::Protocol { protocol: "TUS".to_string(), message: "Failed to create upload: 400 Bad Request".to_string() })
    );
    assert_eq!(
        protocol.create_upload_result(201, None),
        Err(TransferError::Protocol { protocol: "TUS".to_string(), message: "No Location header in response".to_string() })
    );
    assert_eq!(
        protocol.create_upload_result(201, Some(b"\x01".to_vec())),
        Err(TransferError::Other("failed to convert header to a str".to_string()))
    );
    assert_eq!(TusProtocol::get_upload_offset_result(200, Some(b"33".to_vec())), Ok(33));
    assert_eq!(
        TusProtocol::get_upload_offset_result(200, Some(b"".to_vec())),
        Err(TransferError::Protocol {
            protocol: "TUS".to_string(),
            message: "Invalid Upload-Offset: cannot parse integer from empty string".to_string()
        })
    );
    let bad = TusProtocol::new(TusConfig { endpoint: "x".to_string(), buffer_size: 1, headers: pairs(&[("bad name", "v")]) });
    assert_eq!(
        bad.create_upload_request(1).err(),
        Some(TransferError::Other("Invalid header name - invalid HTTP header name".to_string()))
    );
    let bad_value = TusProtocol::new(TusConfig { endpoint: "x".to_string(), buffer_size: 1, headers: pairs(&[("ok", "a\nb")]) });
    assert_eq!(
        bad_value.get_upload_offset_request("x").err(),
        Some(TransferError::Other("Invalid header value - failed to parse header value".to_string()))
    );
    let relative = TusProtocol::new(TusConfig::new("no url".to_string()));
    assert!(matches!(relative.ensure_location_complete("/a"), Err(TransferError::URL(_))));

    let mut builder_config = TransferConfig::default();
    builder_config.source = "f.bin".to_string();
    builder_config.headers = pairs(&[("a", "b")]);
    let builder = TusProtocolBuilder::new(builder_config, "http://e/".to_string());
    let ctx = builder.build_context();
    assert_eq!(ctx.source, "f.bin");
    let built = builder.build_protocol();
    assert_eq!(built.config.endpoint, "http://e/");
    assert_eq!(built.config.headers, pairs(&[("a", "b")]));
}

#[test]
fn task_builder_defaults() {
    let b = TusTaskBuilder::new("http://e/".to_string(), "f.bin".to_string());
    assert_eq!(b.config.endpoint, "http://e/");
    assert!(b.config.headers.is_empty());
    assert!(b.options.is_none());
    let p = b.build_protocol();
    assert_eq!(p.config.endpoint, "http://e/");
}

#[test]
fn upload_protocol_requests_and_answers() {
    let dev = dev_config("tok");
    let builder = TusUploadBuilder::new("f.bin".to_string(), "http://h/files/".to_string(), &dev);
    assert_eq!(builder.config.headers, pairs(&[("token", "tok")]));
    assert_eq!(builder.config.chunk_size, 5 * 1024 * 1024);
    assert_eq!(builder.config.tus_version, "1.0.0");
    let built = tunnel::builder::upload_tus("f.bin".to_string(), "http://h/files/".to_string(), &dev);
    assert_eq!(built.config.endpoint, "http://h/files/");

    let mut options = TusUploadOptions::default();
    options.metadata = pairs(&[("filename", "a")]);
    options.delete_on_termination = true;
    let protocol = TusUploadProtocol::new(builder.config.clone(), options);
    let q = protocol.create_upload_request(3).unwrap();
    assert_eq!(
        q.headers,
        pairs(&[("Tus-Resumable", "1.0.0"), ("Upload-Length", "3"), ("Upload-Metadata", "filename YQ=="), ("token", "tok")])
    );
    let c = protocol.upload_chunk_request("http://h/files/1", 10, 4).unwrap();
    assert_eq!(
        c.headers,
        pairs(&[
            ("Tus-Resumable", "1.0.0"),
            ("Upload-Offset", "10"),
            ("Content-Type", "application/offset+octet-stream"),
            ("Content-Length", "4"),
            ("token", "tok")
        ])
    );
    assert_eq!(TusUploadProtocol::upload_chunk_result(204, Some(b"14".to_vec())), Ok(14));
    assert_eq!(
        TusUploadProtocol::upload_chunk_result(200, Some(b"14".to_vec())),
        Err(TransferError::Protocol { protocol: "TUS".to_string(), message: "Upload failed: 200 OK".to_string() })
    );
    assert_eq!(
        TusUploadProtocol::get_upload_offset_result(200, Some(b"\x02".to_vec())),
        Err(TransferError::Protocol {
            protocol: "TUS".to_string(),
            message: "Invalid Upload-Offset: failed to convert header to a str".to_string()
        })
    );
    assert_eq!(
        protocol.create_upload_result(201, Some(b"\x02".to_vec())),
        Err(TransferError::Protocol {
            protocol: "TUS".to_string(),
            message: "Failed to parse Location header: failed to convert header to a str".to_string()
        })
    );
    assert!(protocol.cancel_request("").unwrap().is_none());
    let d = protocol.cancel_request("http://h/files/1").unwrap().unwrap();
    assert_eq!(d.method, HttpMethod::Delete);
    assert_eq!(TusUploadProtocol::cancel_result(404), Ok(()));
    assert!(TusUploadProtocol::cancel_result(500).is_err());
    assert_eq!(TusUploadProtocol::get_progress(&Ok(5)), 5);
    assert_eq!(TusUploadProtocol::get_progress(&Err(TransferError::Timeout)), 0);

    let defaults = UploadTusConfig::default();
    assert_eq!(defaults.timeout_ms, 30_000);
    assert_eq!(defaults.max_retries, 3);
    assert_eq!(
        UploadTusError::UploadIncomplete { expected: 10, actual: 4 }.message(),
        "Upload incomplete: expected 10 bytes, got 4"
    );
    assert_eq!(
        UploadTusError::ServerError { status: 500, message: "boom".to_string() }.message(),
        "TUS server error (500): boom"
    );
}

#[test]
fn chunks_cover_the_file() {
    let uploader = ChunkedUploader::new("http://h", ChunkedConfig { chunk_size: 4, concurrent_chunks: 2 });
    let chunks = uploader.calculate_chunks(10);
    assert_eq!(
        chunks,
        vec![
            ChunkInfo { index: 0, offset: 0, size: 4, uploaded: false },
            ChunkInfo { index: 1, offset: 4, size: 4, uploaded: false },
            ChunkInfo { index: 2, offset: 8, size: 2, uploaded: false },
        ]
    );
    assert!(uploader.calculate_chunks(0).is_empty());
    assert_eq!(uploader.calculate_chunks(8).len(), 2);
    let q = uploader.upload_chunk_request("u1", &chunks[2]);
    assert_eq!(q.url, "http://h/chunk");
    assert_eq!(q.appended, pairs(&[("X-Upload-Id", "u1"), ("X-Chunk-Index", "2"), ("X-Chunk-Offset", "8")]));
    assert_eq!(
        tunnel::uploaders::chunked::chunk_result(500, &chunks[1]),
        Err(TransferError::ServerError { status: 500, message: "Failed to upload chunk 1".to_string() })
    );
    assert_eq!(tunnel::uploaders::chunked::chunk_indices(&chunks), vec![0, 1, 2]);
}

#[test]
fn simple_uploader_answers() {
    let u = SimpleUploader::new("http://h/up", SimpleConfig { timeout_ms: 1000 });
    let q = u.upload_request(&pairs(&[("name", "a")]));
    assert_eq!(q.appended, pairs(&[("X-Meta-name", "a")]));
    assert_eq!(u.upload_result(200, Some(b"http://h/f/1".to_vec())), Ok("http://h/f/1".to_string()));
    assert_eq!(u.upload_result(201, None), Ok("http://h/up".to_string()));
    assert_eq!(u.upload_result(200, Some(b"\x03".to_vec())), Ok("http://h/up".to_string()));
    assert_eq!(
        u.upload_result(503, None),
        Err(TransferError::ServerError { status: 503, message: "Upload failed with status 503 Service Unavailable".to_string() })
    );
    assert!(!u.supports_resume());
}

#[test]
fn decimal_offsets_read_back() {
    for n in [0u64, 7, 10, 99, 1024, 18_446_744_073_709_551_615].iter() {
        assert_eq!(parse_u64(&tunnel::text::decimal_string(*n)), Ok(*n));
    }
}

#[test]
fn error_messages() {
    assert_eq!(TusError::server_error(500, "x".to_string()).message(), "Server error: status code 500, message: x");
    assert_eq!(TusError::UploadIncomplete { expected: 10, actual: 3 }.message(), "Upload incomplete expected: 10, actual: 3");
    assert_eq!(TusError::ParamError("p".to_string()).message(), "Param error: p");
    assert_eq!(TusError::Cancelled.message(), "Upload was cancelled");
    assert_eq!(TusError::internal_error("i".to_string()).message(), "Internal error: i");
    assert_eq!(TusError::InvalidHeaderName("n".to_string()).message(), "Invalid header name: n");
    assert_eq!(UploadTusError::ProtocolError("bad".to_string()).message(), "TUS protocol error: bad");
    assert_eq!(UploadTusError::InvalidOffset { expected: 4, actual: 5 }.message(), "Invalid offset: expected 4, got 5");
    assert_eq!(TransferError::Timeout.message(), "Timeout");
    assert_eq!(TransferError::URL("u".to_string()).message(), "URL parse error: u");
    assert_eq!(TransferError::RetryLimitExceeded.message(), "Retry limit exceeded");
}
