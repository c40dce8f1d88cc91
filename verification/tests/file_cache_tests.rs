use gewe_notice_mcp::upload_server::config::{SanitizedConfig, ServerConfig, ServerConfigError};
use gewe_notice_mcp::upload_server::error::UploadServerError;
use gewe_notice_mcp::upload_server::http::{
    download_content_type, download_disposition, file_url, upload_response, UploadPayload,
};
use gewe_notice_mcp::upload_server::storage::{
    compute_expiry, percent_encode_filename, FileStore, Lookup, StoredFile,
};

const MB: u64 = 1024 * 1024;

fn config(max_file_bytes: u64) -> SanitizedConfig {
    SanitizedConfig {
        bind: "127.0.0.1:8989".into(),
        public_base_url: "https://files.example.com".into(),
        storage_dir: "/var/cache/gewe".into(),
        max_file_bytes,
        default_ttl: 300,
        min_ttl: 60,
        cleanup_interval: 60,
    }
}

fn store() -> FileStore {
    FileStore::new(&config(20 * MB), false)
}

fn put(store: &mut FileStore, name: &str, ttl: Option<u64>, now: u64) -> String {
    let reservation = store.reserve(name, b"bytes").expect("accepted");
    let saved = store.save(reservation, Some("text/plain".into()), ttl, now);
    saved.id
}

fn found(lookup: Lookup) -> StoredFile {
    match lookup {
        Lookup::Found(file) => file,
        other => panic!("unexpected {:?}", other),
    }
}

#[test]
fn expiry_is_now_plus_the_lifetime() {
    assert_eq!(compute_expiry(None, 300, 60, 1000), 1300);
    assert_eq!(compute_expiry(Some(600), 300, 60, 1000), 1600);
    assert_eq!(compute_expiry(Some(10), 300, 60, 1000), 1060);
    assert_eq!(compute_expiry(Some(0), 300, 60, 0), 60);
    assert_eq!(compute_expiry(Some(60), 300, 60, 5), 65);
    assert_eq!(compute_expiry(None, 30, 60, 5), 65);
    assert_eq!(compute_expiry(Some(u64::MAX - 1), 300, 60, 1), u64::MAX);
}

#[test]
fn save_then_get_returns_what_was_saved() {
    let mut store = store();
    let reservation = store.reserve("报告 final.pdf", b"%PDF-1.7").expect("accepted");
    assert_eq!(reservation.file_name(), "报告 final.pdf");
    assert_eq!(reservation.size(), 8);
    let id = reservation.id().to_string();
    assert_eq!(id.len(), 32);
    assert!(id.chars().all(|c| c.is_ascii_hexdigit()));
    assert_eq!(store.location(&id), format!("/var/cache/gewe/{}", id));

    let saved = store.save(reservation, Some("application/pdf".into()), Some(120), 1_700_000_000);
    assert_eq!(saved.id, id);
    assert_eq!(saved.file_name, "报告 final.pdf");
    assert_eq!(saved.size, 8);
    assert_eq!(saved.content_type.as_deref(), Some("application/pdf"));
    assert_eq!(saved.expires_at, 1_700_000_120);
    assert_eq!(store.len(), 1);

    let file = found(store.get(&id, 1_700_000_000));
    assert_eq!(file.file_name(), "报告 final.pdf");
    assert_eq!(file.content_type(), Some("application/pdf"));
    assert_eq!(file.size(), 8);
    assert_eq!(file.expires_at(), 1_700_000_120);
    assert_eq!(file.path(), format!("/var/cache/gewe/{}", id));
    // the last second before the expiry
    assert!(store.get(&id, 1_700_000_119).into_result().is_ok());
    assert_eq!(store.len(), 1);
}

#[test]
fn get_after_the_expiry_finds_nothing_and_heals_the_index() {
    let mut store = store();
    let id = put(&mut store, "a.txt", Some(120), 1000);
    let other = put(&mut store, "b.txt", Some(600), 1000);
    match store.get(&id, 1120) {
        Lookup::Expired(file) => {
            assert_eq!(file.file_name, "a.txt");
            assert_eq!(file.path, store.location(&id));
        }
        other => panic!("unexpected {:?}", other),
    }
    assert_eq!(store.len(), 1);
    assert!(matches!(store.get(&id, 1120), Lookup::Missing));
    assert!(matches!(store.get(&id, 0).into_result(), Err(UploadServerError::NotFound)));
    assert!(store.cleanup_expired(1120).is_empty());
    assert!(store.get(&other, 1120).into_result().is_ok());
}

#[test]
fn delete_is_idempotent() {
    let mut store = store();
    assert_eq!(store.delete("unknown"), None);
    assert_eq!(store.delete(""), None);
    assert_eq!(store.len(), 0);

    let id = put(&mut store, "a.txt", None, 1000);
    let keep = put(&mut store, "b.txt", None, 1000);
    assert_eq!(store.delete(&id), Some(format!("/var/cache/gewe/{}", id)));
    assert_eq!(store.delete(&id), None);
    assert_eq!(store.delete(&id), None);
    assert_eq!(store.len(), 1);
    assert!(matches!(store.get(&id, 1000), Lookup::Missing));
    assert!(matches!(store.get(&keep, 1000), Lookup::Found(_)));
}

#[test]
fn upload_above_the_ceiling_is_refused_before_anything_is_stored() {
    let mut store = store();
    let bytes = vec![0u8; 21 * 1024 * 1024];
    match store.reserve("big.bin", &bytes) {
        Err(UploadServerError::FileTooLarge { max_bytes }) => assert_eq!(max_bytes, 20 * MB),
        other => panic!("unexpected {:?}", other),
    }
    assert_eq!(store.len(), 0);
    assert!(store.cleanup_expired(u64::MAX).is_empty());

    let exactly = vec![0u8; 20 * 1024 * 1024];
    assert!(store.reserve("fits.bin", &exactly).is_ok());
    // the size is judged before the name
    let small = FileStore::new(&config(3), false);
    assert!(matches!(
        small.reserve("///", b"abcd"),
        Err(UploadServerError::FileTooLarge { max_bytes: 3 })
    ));
}

#[test]
fn a_name_of_which_sanitizing_leaves_nothing_is_refused() {
    let store = store();
    for name in ["", "///", "..", ".", "\u{0}\u{1f}", "<>:\"|?*", "\\"] {
        match store.reserve(name, b"x") {
            Err(UploadServerError::BadRequest(text)) => assert_eq!(text, "文件名不能为空"),
            other => panic!("unexpected {:?} for {:?}", other, name),
        }
    }
    let shown = [
        ("a", "a"),
        ("../etc/passwd", "..etcpasswd"),
        (".hidden", ".hidden"),
        ("con", "con"),
        ("a.", "a."),
        ("re:port?.pdf", "report.pdf"),
    ];
    for (name, safe) in shown {
        let reservation = store.reserve(name, b"x").expect("accepted");
        // the sanitized name is kept for show; the bytes go under the identifier alone
        assert_eq!(reservation.file_name(), safe);
        assert_eq!(store.location(reservation.id()), format!("/var/cache/gewe/{}", reservation.id()));
    }
    let windows = FileStore::new(&config(20 * MB), true);
    assert!(matches!(windows.reserve("con", b"x"), Err(UploadServerError::BadRequest(_))));
    assert!(matches!(windows.reserve("aux.txt", b"x"), Err(UploadServerError::BadRequest(_))));
    assert!(windows.reserve("console", b"x").is_ok());
}

#[test]
fn the_sweep_removes_what_has_expired_and_nothing_else() {
    let mut store = store();
    let a = put(&mut store, "a", Some(60), 1000);
    let b = put(&mut store, "b", Some(120), 1000);
    let c = put(&mut store, "c", Some(61), 1000);
    let d = put(&mut store, "d", Some(3600), 1000);
    assert!(store.cleanup_expired(1059).is_empty());
    assert_eq!(store.len(), 4);

    let mut removed = store.cleanup_expired(1061);
    removed.sort();
    let mut expected = vec![a.clone(), c.clone()];
    expected.sort();
    assert_eq!(removed, expected);
    assert_eq!(store.len(), 2);
    assert!(matches!(store.get(&a, 0), Lookup::Missing));
    assert!(matches!(store.get(&c, 0), Lookup::Missing));
    assert!(matches!(store.get(&b, 1061), Lookup::Found(_)));
    assert!(matches!(store.get(&d, 1061), Lookup::Found(_)));
    assert!(store.cleanup_expired(1061).is_empty());

    let mut rest = store.cleanup_expired(u64::MAX);
    rest.sort();
    let mut expected = vec![b, d];
    expected.sort();
    assert_eq!(rest, expected);
    assert_eq!(store.len(), 0);
}

#[test]
fn identifiers_are_fresh() {
    let mut store = store();
    let mut ids = Vec::new();
    for _ in 0..50 {
        ids.push(put(&mut store, "same-name.txt", None, 1000));
    }
    ids.sort();
    ids.dedup();
    assert_eq!(ids.len(), 50);
    assert_eq!(store.len(), 50);
}

#[test]
fn the_storage_directory_may_end_in_a_slash() {
    let mut with_slash = config(10);
    with_slash.storage_dir = "/data/".into();
    let store = FileStore::new(&with_slash, false);
    assert_eq!(store.location("abc"), "/data/abc");
    let mut relative = config(10);
    relative.storage_dir = "gewe_cached_files".into();
    assert_eq!(FileStore::new(&relative, false).location("abc"), "gewe_cached_files/abc");
    // an empty directory is the working directory, not the root of the file system
    let mut empty = config(10);
    empty.storage_dir = "".into();
    assert_eq!(FileStore::new(&empty, false).location("abc"), "abc");
    let mut root = config(10);
    root.storage_dir = "/".into();
    assert_eq!(FileStore::new(&root, false).location("abc"), "/abc");
}

#[test]
fn file_names_are_percent_encoded_byte_by_byte() {
    assert_eq!(percent_encode_filename("report2024"), "report2024");
    assert_eq!(percent_encode_filename("a b.txt"), "a%20b%2Etxt");
    assert_eq!(percent_encode_filename("-_.~/%"), "%2D%5F%2E%7E%2F%25");
    assert_eq!(percent_encode_filename("é"), "%C3%A9");
    assert_eq!(percent_encode_filename("报告"), "%E6%8A%A5%E5%91%8A");
    assert_eq!(percent_encode_filename("\u{0}\u{7f}"), "%00%7F");
    assert_eq!(percent_encode_filename(""), "");
    assert_eq!(
        file_url("https://files.example.com", "0123abcd", "my file.pdf"),
        "https://files.example.com/files/0123abcd/my%20file%2Epdf"
    );
}

#[test]
fn upload_bodies_are_decoded() {
    let payload = UploadPayload {
        file_name: "  hello.txt ".into(),
        content_base64: "aGVsbG8=".into(),
        content_type: Some("text/plain".into()),
        ttl_seconds: Some(90),
    };
    let upload = payload.decode().expect("decoded");
    assert_eq!(upload.file_name, "hello.txt");
    assert_eq!(upload.bytes, b"hello");
    assert_eq!(upload.content_type.as_deref(), Some("text/plain"));
    assert_eq!(upload.ttl, Some(90));

    let empty = UploadPayload {
        file_name: "e".into(),
        content_base64: "".into(),
        content_type: None,
        ttl_seconds: None,
    };
    assert!(empty.decode().expect("decoded").bytes.is_empty());

    let blank = UploadPayload {
        file_name: " \t".into(),
        content_base64: "!!!".into(),
        content_type: None,
        ttl_seconds: None,
    };
    match blank.decode() {
        Err(UploadServerError::BadRequest(text)) => assert_eq!(text, "file_name 不能为空"),
        other => panic!("unexpected {:?}", other),
    }
    for bad in ["aGVsbG8", "aGVs bG8=", "****", "aGVsbG8==", "YQ=x"] {
        let payload = UploadPayload {
            file_name: "f".into(),
            content_base64: bad.into(),
            content_type: None,
            ttl_seconds: None,
        };
        match payload.decode() {
            Err(UploadServerError::BadRequest(text)) => {
                assert_eq!(text, "content_base64 不是有效的 base64")
            }
            other => panic!("unexpected {:?} for {:?}", other, bad),
        }
    }
}

#[test]
fn upload_and_download_answers() {
    let mut store = store();
    let reservation = store.reserve("my file.pdf", b"abc").expect("accepted");
    let saved = store.save(reservation, None, None, 1000);
    let id = saved.id.clone();
    let response = upload_response("https://files.example.com", saved);
    assert_eq!(response.file_id, id);
    assert_eq!(
        response.file_url,
        format!("https://files.example.com/files/{}/my%20file%2Epdf", id)
    );
    assert_eq!(response.expires_at, 1300);
    assert_eq!(response.size, 3);

    let file = found(store.get(&id, 1000));
    assert_eq!(download_content_type(&file), "application/octet-stream");
    assert_eq!(download_disposition(&file), "attachment; filename=\"my file.pdf\"");
    let typed = StoredFile { content_type: Some("image/png".into()), ..file };
    assert_eq!(download_content_type(&typed), "image/png");
}

#[test]
fn failures_and_their_http_answers() {
    let bad = UploadServerError::BadRequest("why".into());
    assert_eq!(bad.message(), "无效请求: why");
    assert_eq!(bad.into_response(), (400, "why".to_string()));

    let large = UploadServerError::FileTooLarge { max_bytes: 20 * MB };
    assert_eq!(large.message(), "文件超出大小限制(20971520 字节)");
    assert_eq!(large.into_response(), (400, "文件大小超过限制: 最大 20971520 字节".to_string()));

    let internal = UploadServerError::Internal("写入文件失败: disk".into());
    assert_eq!(internal.message(), "内部错误: 写入文件失败: disk");
    assert_eq!(internal.into_response(), (500, "内部错误: 写入文件失败: disk".to_string()));

    assert_eq!(UploadServerError::NotFound.message(), "文件不存在或已过期");
    assert_eq!(
        UploadServerError::NotFound.into_response(),
        (410, "文件不存在或已过期".to_string())
    );
}

fn raw_config() -> ServerConfig {
    ServerConfig {
        bind: "127.0.0.1:8989".into(),
        public_base_url: "https://files.example.com//".into(),
        storage_dir: "/var/cache/gewe".into(),
        max_file_bytes: 20 * MB,
        default_ttl_secs: 30,
        min_ttl_secs: 60,
        cleanup_interval_secs: 1,
    }
}

#[test]
fn settings_are_made_fit_for_use() {
    let config = raw_config().sanitize().expect("valid");
    assert_eq!(config.bind, "127.0.0.1:8989");
    assert_eq!(config.public_base_url, "https://files.example.com");
    assert_eq!(config.storage_dir, "/var/cache/gewe");
    assert_eq!(config.max_file_bytes, 20 * MB);
    assert_eq!(config.default_ttl, 60);
    assert_eq!(config.min_ttl, 60);
    assert_eq!(config.cleanup_interval, 10);

    let mut kept = raw_config();
    kept.default_ttl_secs = 300;
    kept.cleanup_interval_secs = 3600;
    kept.public_base_url = " https://x ".into();
    let config = kept.sanitize().expect("valid");
    assert_eq!(config.default_ttl, 300);
    assert_eq!(config.cleanup_interval, 3600);
    assert_eq!(config.public_base_url, " https://x ");
}

#[test]
fn settings_that_cannot_be_used_are_refused_in_order() {
    let mut all_wrong = raw_config();
    all_wrong.public_base_url = "  ".into();
    all_wrong.max_file_bytes = 0;
    all_wrong.min_ttl_secs = 0;
    assert_eq!(all_wrong.clone().sanitize().unwrap_err(), ServerConfigError::EmptyPublicBaseUrl);
    all_wrong.public_base_url = "https://x".into();
    assert_eq!(all_wrong.clone().sanitize().unwrap_err(), ServerConfigError::ZeroMaxFileBytes);
    all_wrong.max_file_bytes = 1;
    assert_eq!(all_wrong.clone().sanitize().unwrap_err(), ServerConfigError::ZeroMinTtl);
    assert_eq!(
        ServerConfigError::EmptyPublicBaseUrl.message(),
        "GEWE_SERVER_PUBLIC_BASE_URL 不能为空"
    );
    assert_eq!(ServerConfigError::ZeroMaxFileBytes.message(), "GEWE_SERVER_MAX_BYTES 必须大于 0");
    assert_eq!(ServerConfigError::ZeroMinTtl.message(), "GEWE_SERVER_MIN_TTL 必须大于 0");
}
