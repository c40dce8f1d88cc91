use gewe_notice_mcp::config::{S3UploadConfig, ServerUploadConfig};
use gewe_notice_mcp::upload_server::http::UploadPayload;
use gewe_notice_mcp::uploader::s3::{build_object_key, object_key, S3Uploader};
use gewe_notice_mcp::uploader::server::{ServerUploadResponse, ServerUploader};
use gewe_notice_mcp::uploader::{UploadError, UploadRequest};

#[test]
fn the_server_payload_carries_the_content_in_base64() {
    let request = UploadRequest {
        file_name: "hello.txt",
        content: b"hello",
        content_type: Some("text/plain"),
        ttl: Some(90),
    };
    let payload = ServerUploader::payload(&request);
    assert_eq!(payload.file_name, "hello.txt");
    assert_eq!(payload.content_base64, "aGVsbG8=");
    assert_eq!(payload.content_type.as_deref(), Some("text/plain"));
    assert_eq!(payload.ttl_seconds, Some(90));

    let bare = UploadRequest { file_name: "x", content: &[0xff, 0xfe, 0x00], content_type: None, ttl: None };
    let payload = ServerUploader::payload(&bare);
    assert_eq!(payload.content_base64, "//4A");
    assert_eq!(payload.content_type, None);
    assert_eq!(payload.ttl_seconds, None);
}

#[test]
fn what_the_uploader_sends_the_cache_server_reads() {
    let content: Vec<u8> = (0..=255u8).collect();
    let request = UploadRequest { file_name: " a.bin ", content: &content, content_type: None, ttl: None };
    let payload = ServerUploader::payload(&request);
    let upload = UploadPayload {
        file_name: payload.file_name,
        content_base64: payload.content_base64,
        content_type: payload.content_type,
        ttl_seconds: payload.ttl_seconds,
    }
    .decode()
    .expect("decoded");
    assert_eq!(upload.bytes, content);
    assert_eq!(upload.file_name, "a.bin");
}

#[test]
fn only_created_accepts_an_upload() {
    assert!(ServerUploader::is_accepted(201));
    for status in [200u16, 202, 204, 400, 410, 500] {
        assert!(!ServerUploader::is_accepted(status));
    }
    let result = ServerUploader::accepted(ServerUploadResponse {
        file_url: "https://files.example.com/files/1/a".into(),
        expires_at: 1_700_000_300,
        size: 5,
    });
    assert_eq!(result.file_url, "https://files.example.com/files/1/a");
    assert_eq!(result.expires_at, Some(1_700_000_300));
    assert_eq!(result.size, 5);

    match ServerUploader::refused("400 Bad Request", "{\"message\":\"x\"}") {
        UploadError::Http(text) => {
            assert_eq!(text, "上传服务器返回非 201 状态码 400 Bad Request: {\"message\":\"x\"}")
        }
        other => panic!("unexpected {:?}", other),
    }
}

#[test]
fn the_server_uploader_keeps_its_settings() {
    let uploader = ServerUploader::new(ServerUploadConfig {
        endpoint: "https://files.example.com/upload".into(),
        api_key: Some("secret".into()),
    });
    assert_eq!(uploader.endpoint(), "https://files.example.com/upload");
    assert_eq!(uploader.api_key(), Some("secret"));
    let open = ServerUploader::new(ServerUploadConfig { endpoint: "http://x/".into(), api_key: None });
    assert_eq!(open.api_key(), None);
}

#[test]
fn upload_failures_in_words() {
    assert_eq!(UploadError::Http("x".into()).message(), "HTTP 请求失败: x");
    assert_eq!(UploadError::InvalidResponse("y".into()).message(), "响应解析失败: y");
    assert_eq!(UploadError::Other("z".into()).message(), "上传失败: z");
}

#[test]
fn object_keys() {
    assert_eq!(object_key(Some("incoming"), "0123", "a.txt"), "incoming/0123_a.txt");
    assert_eq!(object_key(Some(""), "0123", "a.txt"), "0123_a.txt");
    assert_eq!(object_key(None, "0123", "a.txt"), "0123_a.txt");
    assert_eq!(object_key(None, "", ""), "_");

    let key = build_object_key(Some("in/coming"), "../a:b?.txt", false);
    assert!(key.starts_with("in/coming/"));
    assert!(key.ends_with("_..ab.txt"));
    assert_eq!(key.len(), "in/coming/".len() + 32 + "_..ab.txt".len());
    let unique = &key["in/coming/".len()..key.len() - "_..ab.txt".len()];
    assert_eq!(unique.len(), 32);
    assert!(unique.chars().all(|c| c.is_ascii_digit() || ('a'..='f').contains(&c)));
    let other = build_object_key(Some("in/coming"), "../a:b?.txt", false);
    assert_ne!(key, other);

    let bare = build_object_key(None, "산.png", false);
    assert!(bare.ends_with("_산.png"));
    assert!(!bare.contains('/'));
    let windows = build_object_key(None, "nul.txt", true);
    assert!(windows.ends_with('_'));
}

#[test]
fn presigned_lifetimes_are_cut_off_at_seven_days() {
    let uploader = S3Uploader::new(
        S3UploadConfig {
            bucket: "bucket".into(),
            region: "ap-southeast-1".into(),
            prefix: Some("p".into()),
            endpoint: None,
        },
        false,
    );
    assert_eq!(uploader.bucket(), "bucket");
    assert_eq!(uploader.presign_ttl(None), 300);
    assert_eq!(uploader.presign_ttl(Some(0)), 0);
    assert_eq!(uploader.presign_ttl(Some(604_800)), 604_800);
    assert_eq!(uploader.presign_ttl(Some(604_801)), 604_800);
    assert_eq!(uploader.presign_ttl(Some(u64::MAX)), 604_800);
    let key = uploader.key_for("a b.txt");
    assert!(key.starts_with("p/"));
    assert!(key.ends_with("_a b.txt"));

    let result = S3Uploader::uploaded("https://s3/x?sig".into(), 7, 300, 1_700_000_000);
    assert_eq!(result.file_url, "https://s3/x?sig");
    assert_eq!(result.expires_at, Some(1_700_000_300));
    assert_eq!(result.size, 7);
}
