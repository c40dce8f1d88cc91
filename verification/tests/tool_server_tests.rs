use gewe_notice_mcp::config::{Config, RawConfig};
use gewe_notice_mcp::gewe_api::GeweApiClient;
use gewe_notice_mcp::server::{
    file_sent_summary, online_report, text_content, GeweNoticeServer, LoggingLevel, PostFileParams,
    ToolCall, ToolError, TraceLevel, TtlParam,
};

fn test_config() -> Config {
    Config::from_raw(RawConfig {
        base_url: "http://example.com".into(),
        token: "00000000-0000-0000-0000-000000000000".into(),
        app_id: "wx_test".into(),
        wxid: "wxid_test".into(),
        at_list: None,
        upload_mode: None,
        upload_server_url: None,
        upload_server_api_key: None,
        s3_bucket: None,
        s3_region: None,
        s3_prefix: None,
        s3_endpoint: None,
    })
    .expect("valid config")
}

fn params(name: Option<&str>, content: Option<&str>) -> PostFileParams {
    PostFileParams {
        file_name: name.map(|s| s.to_string()),
        content_base64: content.map(|s| s.to_string()),
        content_type: None,
        ttl_seconds: TtlParam::Absent,
    }
}

fn refusal(params: PostFileParams) -> String {
    match params.validate() {
        Err(ToolError::InvalidParams(text)) => text,
        other => panic!("unexpected {:?}", other),
    }
}

#[test]
fn store_min_level_updates_atomic() {
    let config = test_config();
    let client = GeweApiClient::new(config.clone());
    let mut server = GeweNoticeServer::new(client, false);

    assert_eq!(server.min_level_value(), GeweNoticeServer::level_value(LoggingLevel::Info));

    server.store_min_level(LoggingLevel::Warning);
    assert_eq!(server.min_level_value(), GeweNoticeServer::level_value(LoggingLevel::Warning));
}

#[test]
fn log_respects_min_level_threshold() {
    let mut server = GeweNoticeServer::new(GeweApiClient::new(test_config()), false);
    assert!(!server.should_emit(LoggingLevel::Debug));
    assert!(server.should_emit(LoggingLevel::Info));
    assert!(server.should_emit(LoggingLevel::Emergency));

    server.store_min_level(LoggingLevel::Debug);
    assert!(server.should_emit(LoggingLevel::Debug));

    server.store_min_level(LoggingLevel::Emergency);
    assert!(!server.should_emit(LoggingLevel::Alert));
    assert!(server.should_emit(LoggingLevel::Emergency));
}

#[test]
fn severities_are_ranked_and_sent_to_their_channels() {
    let levels = [
        LoggingLevel::Debug,
        LoggingLevel::Info,
        LoggingLevel::Notice,
        LoggingLevel::Warning,
        LoggingLevel::Error,
        LoggingLevel::Critical,
        LoggingLevel::Alert,
        LoggingLevel::Emergency,
    ];
    let ranks: Vec<u8> = levels.iter().map(|l| GeweNoticeServer::level_value(*l)).collect();
    assert_eq!(ranks, vec![0, 1, 2, 3, 4, 5, 6, 7]);
    let channels: Vec<TraceLevel> = levels.iter().map(|l| l.trace_level()).collect();
    assert_eq!(
        channels,
        vec![
            TraceLevel::Debug,
            TraceLevel::Info,
            TraceLevel::Info,
            TraceLevel::Warn,
            TraceLevel::Error,
            TraceLevel::Error,
            TraceLevel::Error,
            TraceLevel::Error
        ]
    );
}

#[test]
fn the_file_tool_is_offered_only_with_an_uploader() {
    let without = GeweNoticeServer::new(GeweApiClient::new(test_config()), false);
    let with = GeweNoticeServer::new(GeweApiClient::new(test_config()), true);
    assert!(!without.has_file_uploader());
    assert!(with.has_file_uploader());
    assert_eq!(without.tool_names(), vec!["post_text"]);
    assert_eq!(with.tool_names(), vec!["post_text", "post_file"]);

    assert!(matches!(without.route("post_text"), Ok(ToolCall::PostText)));
    assert!(matches!(without.route("post_file"), Err(ToolError::MethodNotFound)));
    assert!(matches!(with.route("post_file"), Ok(ToolCall::PostFile)));
    assert!(matches!(with.route("post_files"), Err(ToolError::MethodNotFound)));
    assert!(matches!(with.route(""), Err(ToolError::MethodNotFound)));
    assert!(matches!(with.route("POST_TEXT"), Err(ToolError::MethodNotFound)));
    assert_eq!(with.api_client().config().app_id_str(), "wx_test");
}

#[test]
fn the_text_tool_needs_its_content() {
    assert_eq!(text_content(Some("done".into())).expect("content"), "done");
    assert_eq!(text_content(Some("".into())).expect("content"), "");
    match text_content(None) {
        Err(ToolError::InvalidParams(text)) => assert_eq!(text, "content parameter is required"),
        other => panic!("unexpected {:?}", other),
    }
}

#[test]
fn file_arguments_are_judged_in_order() {
    assert_eq!(refusal(params(None, None)), "file_name 参数必须为非空字符串");
    assert_eq!(refusal(params(Some("  "), Some("aGVsbG8="))), "file_name 参数必须为非空字符串");
    assert_eq!(refusal(params(Some("a.txt"), None)), "content_base64 参数缺失");
    assert_eq!(refusal(params(Some("a.txt"), Some("@@"))), "content_base64 不是有效的 Base64");
    assert_eq!(refusal(params(Some("a.txt"), Some(""))), "文件内容不能为空");
    let mut bad_ttl = params(Some("a.txt"), Some("aGVsbG8="));
    bad_ttl.ttl_seconds = TtlParam::Invalid;
    assert_eq!(refusal(bad_ttl), "ttl_seconds 必须为非负整数");
    let mut empty_and_bad_ttl = params(Some("a.txt"), Some(""));
    empty_and_bad_ttl.ttl_seconds = TtlParam::Invalid;
    assert_eq!(refusal(empty_and_bad_ttl), "文件内容不能为空");
}

#[test]
fn accepted_file_arguments() {
    let file = PostFileParams {
        file_name: Some(" a.txt ".into()),
        content_base64: Some("aGVsbG8=".into()),
        content_type: Some(" text/plain ".into()),
        ttl_seconds: TtlParam::Seconds(0),
    }
    .validate()
    .expect("accepted");
    assert_eq!(file.file_name, "a.txt");
    assert_eq!(file.bytes, b"hello");
    assert_eq!(file.content_type.as_deref(), Some("text/plain"));
    assert_eq!(file.ttl, Some(0));

    let bare = PostFileParams {
        file_name: Some("a".into()),
        content_base64: Some("AA==".into()),
        content_type: Some("   ".into()),
        ttl_seconds: TtlParam::Absent,
    }
    .validate()
    .expect("accepted");
    assert_eq!(bare.bytes, vec![0u8]);
    assert_eq!(bare.content_type, None);
    assert_eq!(bare.ttl, None);
}

#[test]
fn reports_in_words() {
    assert_eq!(online_report(Ok(true)), (LoggingLevel::Info, "机器人在线，准备就绪。".to_string()));
    assert_eq!(
        online_report(Ok(false)),
        (LoggingLevel::Error, "机器人当前不在线。请检查微信客户端或 Gewe 服务。".to_string())
    );
    assert_eq!(
        online_report(Err("连接被拒绝".into())),
        (LoggingLevel::Error, "在线状态检查失败: 连接被拒绝".to_string())
    );
    assert_eq!(
        file_sent_summary("a.txt", "https://x/files/1/a%2Etxt"),
        "文件已发送: a.txt -> https://x/files/1/a%2Etxt"
    );
}
