use gewe_notice_mcp::config::{Config, RawConfig};
use gewe_notice_mcp::errors::{ApiBusinessError, ApiErrorCode, GeweNoticeError, NetworkError};
use gewe_notice_mcp::gewe_api::{
    call_timed_out, http_failure, is_success_status, permit_refused, ApiRet, ChatroomMember,
    ChatroomMemberData, CheckOnlineResponse, GetChatroomMemberListResponse, GeweApiClient,
    MemberName, PostFileCall, PostFileData, PostFileResponse, PostTextCall, PostTextData,
    PostTextRequest, PostTextResponse, SendAction, SendMemory, SendState, SendStep,
    CHECK_ONLINE_PATH,
    POST_TEXT_PATH,
};
use gewe_notice_mcp::retry::RetryVerdict;

fn client_for(wxid: &str, at_list: Option<Vec<&str>>) -> GeweApiClient {
    let raw = RawConfig {
        base_url: "http://127.0.0.1:9".into(),
        token: "00000000-0000-0000-0000-000000000000".into(),
        app_id: "wx_test_app".into(),
        wxid: wxid.into(),
        at_list: at_list.map(|l| l.into_iter().map(|s| s.to_string()).collect()),
        upload_mode: None,
        upload_server_url: None,
        upload_server_api_key: None,
        s3_bucket: None,
        s3_region: None,
        s3_prefix: None,
        s3_endpoint: None,
    };
    GeweApiClient::new(Config::from_raw(raw).expect("valid config"))
}

fn answer(status: u16, ret: i32, msg: &str, code: Option<&str>) -> PostTextCall {
    PostTextCall {
        status,
        body: "{}".into(),
        response: PostTextResponse {
            ret,
            msg: msg.into(),
            data: Some(PostTextData { code: code.map(|c| c.to_string()) }),
        },
        retry_after_ms: None,
    }
}

fn delivered() -> PostTextCall {
    answer(200, 200, "操作成功", None)
}

fn expect_post(step: SendStep, state: SendState) -> PostTextRequest {
    assert_eq!(step.state, state);
    match step.action {
        SendAction::Post(request) => request,
        other => panic!("unexpected action {:?}", other),
    }
}

fn member(wxid: &str, name: &str) -> MemberName {
    MemberName { wxid: wxid.into(), name: name.into() }
}

#[test]
fn a_person_gets_the_plain_message_and_no_lookup() {
    let client = client_for("wxid_person", Some(vec!["user_a", "all"]));
    let request = expect_post(client.begin_text("任务完成", SendMemory::new()), SendState::Sent);
    assert_eq!(request.app_id, "wx_test_app");
    assert_eq!(request.to_wxid, "wxid_person");
    assert_eq!(request.content, "任务完成");
    assert_eq!(request.ats, None);

    let only_all = client_all_for("wxid_person");
    let request = expect_post(only_all.begin_text("任务完成", SendMemory::new()), SendState::Sent);
    assert_eq!(request.content, "任务完成");
    assert_eq!(request.ats, None);
    let denied = answer(200, 500, "操作失败", Some("-2"));
    let step = only_all.post_answered("任务完成", SendState::Sent, SendMemory::new(), Ok(denied));
    assert_eq!(step.state, SendState::Done);
    assert!(matches!(
        step.action,
        SendAction::Finish(Err(GeweNoticeError::Business(ApiBusinessError::KnownError {
            code: ApiErrorCode::PermissionDenied
        })))
    ));
}

fn client_all_for(wxid: &str) -> GeweApiClient {
    client_for(wxid, Some(vec!["all"]))
}

#[test]
fn a_group_without_a_mention_list_gets_the_plain_message() {
    let client = client_for("wxid_target@chatroom", None);
    let request = expect_post(client.begin_text("hello", SendMemory::new()), SendState::Sent);
    assert_eq!(request.content, "hello");
    assert_eq!(request.ats, None);
}

#[test]
fn post_text_mentions_specific_members() {
    let client = client_for("wxid_target@chatroom", Some(vec![" user_a "]));
    let step = client.begin_text("任务完成", SendMemory::new());
    assert_eq!(step.state, SendState::AwaitingMembers);
    match step.action {
        SendAction::LookupMembers { chatroom_id } => assert_eq!(chatroom_id, "wxid_target@chatroom"),
        other => panic!("unexpected action {:?}", other),
    }

    let response = GetChatroomMemberListResponse {
        ret: 200,
        msg: "操作成功".into(),
        data: Some(ChatroomMemberData {
            member_list: vec![
                ChatroomMember {
                    wxid: "user_a".into(),
                    nick_name: "A".into(),
                    display_name: Some("显示A".into()),
                },
                ChatroomMember { wxid: "user_b".into(), nick_name: "B".into(), display_name: None },
            ],
        }),
    };
    let names = response.outcome().expect("member names");
    assert_eq!(names.len(), 2);
    assert_eq!(names[0].name, "显示A");
    assert_eq!(names[1].wxid, "user_b");
    assert_eq!(names[1].name, "B");

    let request = expect_post(client.members_resolved("任务完成", SendMemory::new(), Ok(names)), SendState::Sent);
    assert_eq!(request.content, "@显示A 任务完成");
    assert_eq!(request.ats.as_deref(), Some("user_a"));

    let step = client.post_answered("任务完成", SendState::Sent, SendMemory::new(), Ok(delivered()));
    assert_eq!(step.state, SendState::Done);
    assert!(matches!(step.action, SendAction::Finish(Ok(()))));
}

#[test]
fn unknown_mentions_are_dropped_and_the_send_goes_on() {
    let client = client_for("g@chatroom", Some(vec!["user_b", "ghost", "user_a", "all"]));
    let members = vec![member("user_a", "甲"), member("user_b", "old"), member("user_b", "乙")];
    let request = expect_post(client.members_resolved("done", SendMemory::new(), Ok(members)), SendState::Sent);
    assert_eq!(request.content, "@乙 @甲 done");
    assert_eq!(request.ats.as_deref(), Some("user_b,user_a"));

    let nobody = vec![member("someone", "else")];
    let request = expect_post(client.members_resolved("done", SendMemory::new(), Ok(nobody)), SendState::Sent);
    assert_eq!(request.content, "done");
    assert_eq!(request.ats, None);

    let request = expect_post(client.members_resolved("done", SendMemory::new(), Ok(vec![])), SendState::Sent);
    assert_eq!(request.content, "done");
    assert_eq!(request.ats, None);
}

#[test]
fn post_text_member_lookup_failure_skips_mentions() {
    let client = client_for("wxid_target@chatroom", Some(vec!["user_missing"]));
    let response = GetChatroomMemberListResponse {
        ret: 500,
        msg: "获取群成员列表异常:null".into(),
        data: None,
    };
    let lookup = response.outcome();
    assert!(matches!(
        lookup,
        Err(GeweNoticeError::Business(ApiBusinessError::KnownError {
            code: ApiErrorCode::NotInGroup
        }))
    ));
    let step = client.members_resolved("尝试@缺失成员", SendMemory::new(), lookup);
    assert_eq!(step.state, SendState::LookupFailed);
    assert!(matches!(
        step.action,
        SendAction::Finish(Err(GeweNoticeError::Business(ApiBusinessError::KnownError {
            code: ApiErrorCode::NotInGroup
        })))
    ));

    let other = GetChatroomMemberListResponse { ret: 500, msg: "oops".into(), data: None };
    match other.outcome() {
        Err(GeweNoticeError::Business(ApiBusinessError::UnknownError { code, message })) => {
            assert_eq!(code, 500);
            assert_eq!(message, "oops");
        }
        other => panic!("unexpected {:?}", other),
    }
    let wrong_ret =
        GetChatroomMemberListResponse { ret: 501, msg: "获取群成员列表异常:null".into(), data: None };
    assert!(matches!(
        wrong_ret.outcome(),
        Err(GeweNoticeError::Business(ApiBusinessError::UnknownError { code: 501, .. }))
    ));
    let empty = GetChatroomMemberListResponse { ret: 200, msg: "".into(), data: None };
    assert!(empty.outcome().expect("empty list").is_empty());
}

#[test]
fn post_text_handles_at_all_permission_denied() {
    let client = client_all_for("wxid_target@chatroom");
    let first = expect_post(client.begin_text("测试", SendMemory::new()), SendState::Sent);
    assert_eq!(first.content, "@所有人 测试");
    assert_eq!(first.ats.as_deref(), Some("notify@all"));

    let denied = answer(200, 500, "操作失败", Some("-2"));
    let second = expect_post(
        client.post_answered("测试", SendState::Sent, SendMemory::new(), Ok(denied)),
        SendState::RetryingWithoutMentions,
    );
    assert_eq!(second.content, "测试");
    assert_eq!(second.ats, None);
    assert_eq!(second.to_wxid, "wxid_target@chatroom");

    let step = client.post_answered("测试", SendState::RetryingWithoutMentions, SendMemory { fallback_used: true }, Ok(delivered()));
    assert_eq!(step.state, SendState::Done);
    assert!(matches!(step.action, SendAction::Finish(Ok(()))));
}

#[test]
fn the_fallback_is_taken_once_only() {
    let client = client_all_for("wxid_target@chatroom");
    let denied = answer(200, 500, "操作失败", Some("-2"));
    let step = client.post_answered("测试", SendState::RetryingWithoutMentions, SendMemory { fallback_used: true }, Ok(denied));
    assert_eq!(step.state, SendState::Done);
    assert!(matches!(
        step.action,
        SendAction::Finish(Err(GeweNoticeError::Business(ApiBusinessError::KnownError {
            code: ApiErrorCode::PermissionDenied
        })))
    ));
    // another return value with the same code is no reason to fall back
    let other_ret = answer(200, 400, "操作失败", Some("-2"));
    let step = client.post_answered("测试", SendState::Sent, SendMemory::new(), Ok(other_ret));
    assert_eq!(step.state, SendState::Done);
    // nor is a list that names everyone among others
    let mixed = client_for("wxid_target@chatroom", Some(vec!["all", "user_a"]));
    assert_eq!(mixed.begin_text("测试", SendMemory::new()).state, SendState::AwaitingMembers);
    let denied = answer(200, 500, "操作失败", Some("-2"));
    assert_eq!(mixed.post_answered("测试", SendState::Sent, SendMemory::new(), Ok(denied)).state, SendState::Done);
}

#[test]
fn a_send_without_an_answer_ends_the_delivery() {
    let client = client_all_for("wxid_target@chatroom");
    let step = client.post_answered("x", SendState::Sent, SendMemory::new(), Err(call_timed_out(10000)));
    assert_eq!(step.state, SendState::Done);
    match step.action {
        SendAction::Finish(Err(e)) => {
            assert!(e.is_retryable());
            assert!(matches!(
                e,
                GeweNoticeError::Network(NetworkError::Timeout { duration_ms: 10000 })
            ));
        }
        other => panic!("unexpected action {:?}", other),
    }
    assert!(matches!(
        permit_refused(),
        GeweNoticeError::Network(NetworkError::ConnectionRefused)
    ));
}

#[test]
fn post_text_propagates_api_failure() {
    // ret 500 with the nested code -104: the group is gone, nothing is retried
    let call = answer(200, 500, "失败", Some("-104"));
    assert_eq!(call.response.ret_status(), ApiRet::Failure(500));
    assert!(!call.response.is_success());
    assert_eq!(call.response.failure_code(), Some(ApiErrorCode::ChatroomMissing));
    let error = call.outcome().expect_err("api error");
    assert!(error.is_fatal());
    assert!(!error.is_retryable());
    assert!(matches!(
        error,
        GeweNoticeError::Business(ApiBusinessError::KnownError {
            code: ApiErrorCode::ChatroomMissing
        })
    ));

    let client = client_for("wxid_target@chatroom", None);
    let call = answer(200, 500, "失败", Some("-104"));
    let step = client.post_answered("任务失败", SendState::Sent, SendMemory::new(), Ok(call));
    assert_eq!(step.state, SendState::Done);
    let result = match step.action {
        SendAction::Finish(result) => result,
        other => panic!("unexpected action {:?}", other),
    };
    match client.judge_text(1, step.state, result, 0) {
        RetryVerdict::Finish(Err(GeweNoticeError::Business(ApiBusinessError::KnownError {
            code,
        }))) => assert_eq!(code, ApiErrorCode::ChatroomMissing),
        other => panic!("unexpected {:?}", other),
    }
}

#[test]
fn answers_to_a_send_are_read_in_order() {
    assert!(delivered().outcome().is_ok());
    assert!(answer(204, 200, "", None).outcome().is_ok());
    // success in the envelope, failure in the words
    match answer(200, 200, "发送失败", None).outcome() {
        Err(GeweNoticeError::Business(ApiBusinessError::UnknownError { code, message })) => {
            assert_eq!(code, 200);
            assert_eq!(message, "发送失败");
        }
        other => panic!("unexpected {:?}", other),
    }
    // an HTTP failure with a good envelope is a failure described by msg
    match answer(502, 200, "操作成功", None).outcome() {
        Err(GeweNoticeError::Business(ApiBusinessError::UnknownError { code, message })) => {
            assert_eq!(code, 200);
            assert_eq!(message, "操作成功");
        }
        other => panic!("unexpected {:?}", other),
    }
    // a known code wins over the message
    assert!(matches!(
        answer(200, 500, "x", Some("-219")).outcome(),
        Err(GeweNoticeError::Business(ApiBusinessError::KnownError {
            code: ApiErrorCode::NotInGroup
        }))
    ));
    // a code that is no numeral or no known number does not count
    for code in ["-1", "abc", "", "- 2", "2"] {
        assert!(matches!(
            answer(200, 500, "x", Some(code)).outcome(),
            Err(GeweNoticeError::Business(ApiBusinessError::UnknownError { code: 500, .. }))
        ));
    }
    // nothing said at all: the bare HTTP answer
    let silent = PostTextCall {
        status: 500,
        body: "<html>".into(),
        response: PostTextResponse { ret: 0, msg: "".into(), data: None },
        retry_after_ms: None,
    };
    match silent.outcome() {
        Err(GeweNoticeError::Network(NetworkError::HttpError { status, body })) => {
            assert_eq!(status, 500);
            assert_eq!(body.as_deref(), Some("<html>"));
        }
        other => panic!("unexpected {:?}", other),
    }
    assert_eq!(ApiRet::from(200), ApiRet::Success);
    assert_eq!(ApiRet::from(201), ApiRet::Failure(201));
    assert!(ApiRet::Success.is_success());
    assert!(!ApiRet::Failure(200).is_success());
    assert_eq!(ApiRet::Success.code(), 200);
    assert_eq!(ApiRet::Failure(-7).code(), -7);
}

#[test]
fn check_online_success() {
    let response = CheckOnlineResponse { ret: 200, msg: "操作成功".into(), data: Some(true) };
    assert!(response.outcome().expect("online"));
}

#[test]
fn check_online_handles_false_data() {
    let response = CheckOnlineResponse { ret: 200, msg: "操作成功".into(), data: Some(false) };
    let err = response.outcome().expect_err("offline");
    assert!(matches!(err, GeweNoticeError::Business(ApiBusinessError::BotOffline)));
    assert!(err.is_fatal());
    let missing = CheckOnlineResponse { ret: 200, msg: "操作成功".into(), data: None };
    assert!(matches!(
        missing.outcome(),
        Err(GeweNoticeError::Business(ApiBusinessError::BotOffline))
    ));
}

#[test]
fn check_online_propagates_api_error() {
    let response = CheckOnlineResponse { ret: 500, msg: "服务器内部错误".into(), data: None };
    match response.outcome().expect_err("api error") {
        GeweNoticeError::Business(ApiBusinessError::UnknownError { code, message }) => {
            assert_eq!(code, 500);
            assert_eq!(message, "服务器内部错误");
        }
        other => panic!("unexpected error {other:?}"),
    }
    let with_data = CheckOnlineResponse { ret: 500, msg: "x".into(), data: Some(true) };
    assert!(with_data.outcome().is_err());
}

#[test]
fn http_statuses_and_endpoints() {
    for status in [200u16, 201, 204, 299] {
        assert!(is_success_status(status));
    }
    for status in [0u16, 100, 199, 300, 404, 500, u16::MAX] {
        assert!(!is_success_status(status));
    }
    match http_failure(503, "busy".into()) {
        GeweNoticeError::Network(NetworkError::HttpError { status, body }) => {
            assert_eq!(status, 503);
            assert_eq!(body.as_deref(), Some("busy"));
        }
        other => panic!("unexpected {:?}", other),
    }
    let client = client_for("wxid_person", None);
    assert_eq!(
        client.endpoint(CHECK_ONLINE_PATH),
        "http://127.0.0.1:9/gewe/v2/api/login/checkOnline"
    );
    assert_eq!(client.endpoint(POST_TEXT_PATH), "http://127.0.0.1:9/gewe/v2/api/message/postText");
    assert_eq!(client.check_online_request().app_id, "wx_test_app");
    let lookup = client.member_list_request("g@chatroom");
    assert_eq!(lookup.app_id, "wx_test_app");
    assert_eq!(lookup.chatroom_id, "g@chatroom");
    assert_eq!(client.request_timeout_ms(), 10000);
    assert_eq!(client.retry_policy().max_retries(), 3);
    assert_eq!(client.config().wxid_str(), "wxid_person");
}

#[test]
fn a_file_send_reports_what_the_backend_relayed() {
    let client = client_for("wxid_target@chatroom", Some(vec!["all"]));
    let request = client.file_request("report.pdf", "https://files.example.com/files/1/report.pdf");
    assert_eq!(request.app_id, "wx_test_app");
    assert_eq!(request.to_wxid, "wxid_target@chatroom");
    assert_eq!(request.file_name, "report.pdf");
    assert_eq!(request.file_url, "https://files.example.com/files/1/report.pdf");

    let relayed = PostFileCall {
        status: 200,
        body: "{}".into(),
        response: PostFileResponse {
            ret: 200,
            msg: "操作成功".into(),
            data: Some(PostFileData {
                code: None,
                to_wxid: Some("wxid_target@chatroom".into()),
                create_time: Some(1703841160),
                msg_id: Some(0),
                new_msg_id: Some(888),
                message_type: Some(6),
            }),
        },
        retry_after_ms: None,
    };
    let info = relayed.outcome().expect("relayed");
    assert_eq!(info.to_wxid.as_deref(), Some("wxid_target@chatroom"));
    assert_eq!(info.create_time, Some(1703841160));
    assert_eq!(info.msg_id, Some(0));
    assert_eq!(info.new_msg_id, Some(888));
    assert_eq!(info.message_type, Some(6));

    let refused = PostFileCall {
        status: 200,
        body: "{}".into(),
        response: PostFileResponse {
            ret: 500,
            msg: "操作失败".into(),
            data: Some(PostFileData {
                code: Some("-219".into()),
                to_wxid: None,
                create_time: None,
                msg_id: None,
                new_msg_id: None,
                message_type: None,
            }),
        },
        retry_after_ms: Some(1500),
    };
    assert!(matches!(
        refused.outcome(),
        Err(GeweNoticeError::Business(ApiBusinessError::KnownError {
            code: ApiErrorCode::NotInGroup
        }))
    ));
    let bare = PostFileCall {
        status: 200,
        body: "{}".into(),
        response: PostFileResponse { ret: 200, msg: "".into(), data: None },
        retry_after_ms: None,
    };
    let info = bare.outcome().expect("relayed");
    assert_eq!(info.to_wxid, None);
    assert_eq!(info.new_msg_id, None);
}

#[test]
fn a_rate_limit_hint_makes_an_unknown_failure_retryable() {
    let mut limited = answer(429, 500, "too many requests", None);
    limited.retry_after_ms = Some(2000);
    let error = limited.outcome().expect_err("limited");
    assert!(error.is_retryable());
    assert!(!error.is_fatal());
    assert_eq!(error.retry_after(), Some(2000));
    assert!(matches!(
        error,
        GeweNoticeError::Business(ApiBusinessError::RateLimited { retry_after_ms: Some(2000) })
    ));

    // a known code is permanent, hint or no hint
    let mut gone = answer(200, 500, "失败", Some("-104"));
    gone.retry_after_ms = Some(2000);
    assert!(gone.outcome().expect_err("gone").is_fatal());

    // a success is a success
    let mut fine = delivered();
    fine.retry_after_ms = Some(2000);
    assert!(fine.outcome().is_ok());

    // without a hint the failure is what msg says, and is not retried
    let plain = answer(429, 500, "too many requests", None);
    let error = plain.outcome().expect_err("unknown");
    assert!(!error.is_retryable());
    let client = client_for("wxid_person", None);
    let verdict = client.retry_policy().judge::<()>(1, Err(error), 0);
    assert!(matches!(verdict, RetryVerdict::Finish(Err(_))));
}

#[test]
fn a_failed_lookup_is_never_retried() {
    let client = client_for("wxid_target@chatroom", Some(vec!["user_a"]));
    assert_eq!(client.begin_text("x", SendMemory::new()).state, SendState::AwaitingMembers);
    // a timeout is retryable, and yet the delivery ends with it
    let step = client.members_resolved("x", SendMemory::new(), Err(call_timed_out(10000)));
    assert_eq!(step.state, SendState::LookupFailed);
    let result = match step.action {
        SendAction::Finish(result) => result,
        other => panic!("unexpected action {:?}", other),
    };
    assert!(result.as_ref().unwrap_err().is_retryable());
    match client.judge_text(1, step.state, result, 0) {
        RetryVerdict::Finish(Err(GeweNoticeError::Network(NetworkError::Timeout { .. }))) => {}
        other => panic!("unexpected {:?}", other),
    }
    match client.after_text_attempt(1, SendState::LookupFailed, Err(call_timed_out(10000))) {
        RetryVerdict::Finish(Err(_)) => {}
        other => panic!("unexpected {:?}", other),
    }
    // the same failure of a send is retried
    match client.judge_text(1, SendState::Done, Err(call_timed_out(10000)), 500) {
        RetryVerdict::RetryAfter { delay_ms } => assert_eq!(delay_ms, 100),
        other => panic!("unexpected {:?}", other),
    }
}

#[test]
fn the_fallback_is_taken_once_in_a_delivery() {
    let client = client_all_for("wxid_target@chatroom");
    // first attempt: the message to everyone is refused, the plain one times out
    let first = client.begin_text("测试", SendMemory::new());
    assert!(!first.memory.fallback_used);
    let denied = answer(200, 500, "操作失败", Some("-2"));
    let second = client.post_answered("测试", first.state, first.memory, Ok(denied));
    assert_eq!(second.state, SendState::RetryingWithoutMentions);
    assert!(second.memory.fallback_used);
    let third = client.post_answered("测试", second.state, second.memory, Err(call_timed_out(10000)));
    assert_eq!(third.state, SendState::Done);
    assert!(third.memory.fallback_used);
    let result = match third.action {
        SendAction::Finish(result) => result,
        other => panic!("unexpected action {:?}", other),
    };
    assert!(matches!(
        client.judge_text(1, third.state, result, 500),
        RetryVerdict::RetryAfter { delay_ms: 100 }
    ));

    // second attempt: the plain message goes out at once, and a refusal ends the attempt
    let again = client.begin_text("测试", third.memory);
    assert_eq!(again.state, SendState::Sent);
    assert!(again.memory.fallback_used);
    let request = match again.action {
        SendAction::Post(request) => request,
        other => panic!("unexpected action {:?}", other),
    };
    assert_eq!(request.content, "测试");
    assert_eq!(request.ats, None);
    let denied = answer(200, 500, "操作失败", Some("-2"));
    let end = client.post_answered("测试", again.state, again.memory, Ok(denied));
    assert_eq!(end.state, SendState::Done);
    assert!(end.memory.fallback_used);
    assert!(matches!(end.action, SendAction::Finish(Err(_))));
}
