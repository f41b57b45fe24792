use btcli::fycore::{
    classify_parsed, classify_response, error_response_of, interpret_reply, patch_error,
    patch_raw, translation_of, BAD_ERROR_CODE, BAD_ERROR_REPLY, BAD_REPLY, ERROR_MARKER,
    NO_RESULTS, SEND_FAILED, SERVER_SAID,
};
use btcli::fyerrcodes::{query_msg, UNKNOWN_ERROR};
use btcli::json::{find_member, find_text, Json};
use btcli::reply::{normalize_error_code, read_error_response, read_translation_response};

fn text(s: &str) -> Json {
    Json::Text(s.to_string())
}

fn object(members: Vec<(&str, Json)>) -> Json {
    Json::Object(members.into_iter().map(|(k, v)| (k.to_string(), v)).collect())
}

#[test]
fn success_reply_gives_first_translation() {
    let body = r#"{"from":"en","to":"zh","trans_result":[{"src":"hello","dst":"你好"}]}"#;
    assert_eq!(classify_response(body), Ok("你好".to_string()));
    assert_eq!(interpret_reply(Ok(body.to_string())), Ok("你好".to_string()));
    assert_eq!(patch_raw(body), Ok("你好".to_string()));
}

#[test]
fn success_reply_with_several_passages_gives_the_first() {
    let body = r#"{"from":"en","to":"zh","trans_result":[{"src":"a","dst":"甲"},{"src":"b","dst":"乙"}]}"#;
    assert_eq!(classify_response(body), Ok("甲".to_string()));
}

#[test]
fn success_reply_may_carry_other_members() {
    let body = r#"{"extra":[1,2.5,null,true],"to":"zh","from":"en","trans_result":[{"dst":"你好","src":"hello","n":-3}]}"#;
    assert_eq!(classify_response(body), Ok("你好".to_string()));
}

#[test]
fn empty_result_is_not_a_parse_error() {
    let body = r#"{"from":"en","to":"zh","trans_result":[]}"#;
    let outcome = classify_response(body);
    assert_eq!(outcome, Err(":( Response contains no translation results".to_string()));
    assert_eq!(outcome, Err(NO_RESULTS.to_string()));
    assert!(!outcome.unwrap_err().starts_with(BAD_REPLY));
}

#[test]
fn error_reply_is_resolved_through_the_catalog() {
    let body = r#"{"error_code":52003,"error_msg":"x"}"#;
    assert_eq!(
        classify_response(body),
        Err(":( We asked, but server said: 未授权用户\n请检查appid是否正确，或是否已开通对应服务服务是否开通"
            .to_string())
    );
}

#[test]
fn error_code_as_number_and_as_string_agree() {
    let number = classify_response(r#"{"error_code":54001,"error_msg":"Invalid Sign"}"#);
    let string = classify_response(r#"{"error_code":"54001","error_msg":"Invalid Sign"}"#);
    assert_eq!(number, string);
    assert_eq!(
        number,
        Err(":( We asked, but server said: 签名错误或token错误\n请检查签名生成方法，或token填写是否正确"
            .to_string())
    );
    assert_eq!(number, Err(format!("{}{}", SERVER_SAID, query_msg(54001))));
}

#[test]
fn unlisted_error_code_gets_the_sentinel() {
    assert_eq!(
        classify_response(r#"{"error_code":999999,"error_msg":"?"}"#),
        Err(format!("{}{}", SERVER_SAID, UNKNOWN_ERROR))
    );
    assert_eq!(
        classify_response(r#"{"error_code":"999999","error_msg":"?"}"#),
        Err(":( We asked, but server said: 未知错误".to_string())
    );
}

#[test]
fn error_marker_takes_precedence() {
    // The body looks like a reply with translations too, yet it holds the marker.
    let body = r#"{"error_code":52003,"error_msg":"x","from":"en","to":"zh","trans_result":[{"src":"hello","dst":"你好"}]}"#;
    assert_eq!(classify_response(body), Err(format!("{}{}", SERVER_SAID, query_msg(52003))));
    // Even a translation that merely mentions the marker makes the reply an error report.
    let quoted = r#"{"from":"en","to":"zh","trans_result":[{"src":"error_msg","dst":"错误信息"}]}"#;
    assert_eq!(
        classify_response(quoted),
        Err(format!("{}{}", BAD_ERROR_REPLY, "missing or invalid field `error_code`"))
    );
    assert_eq!(ERROR_MARKER, "error_msg");
}

#[test]
fn malformed_body_is_a_parse_failure() {
    assert_eq!(
        classify_response("<html>"),
        Err(":( Failed to parse successful response: expected value at line 1 column 1".to_string())
    );
    assert_eq!(
        classify_response(""),
        Err(":( Failed to parse successful response: EOF while parsing a value at line 1 column 0"
            .to_string())
    );
    let truncated = classify_response(r#"{"from":"en","to":"zh","trans_result":[{"src":"hello""#);
    assert!(truncated.unwrap_err().starts_with(BAD_REPLY));
    let trailing = classify_response(r#"{"from":"en"} x"#);
    assert!(trailing.unwrap_err().starts_with(BAD_REPLY));
}

#[test]
fn malformed_body_with_marker_is_an_error_parse_failure() {
    assert_eq!(
        classify_response("error_msg"),
        Err(":( Failed to parse error response: expected value at line 1 column 1".to_string())
    );
    assert_eq!(
        patch_error("{").err(),
        Some(":( Failed to parse error response: EOF while parsing an object at line 1 column 1"
            .to_string())
    );
}

#[test]
fn reply_of_another_shape_is_a_parse_failure() {
    let cases = [
        (r#"[]"#, "expected a JSON object"),
        (r#"null"#, "expected a JSON object"),
        (r#""text""#, "expected a JSON object"),
        (r#"{}"#, "missing or invalid field `from`"),
        (r#"{"from":1,"to":"zh","trans_result":[]}"#, "missing or invalid field `from`"),
        (r#"{"from":"en","trans_result":[]}"#, "missing or invalid field `to`"),
        (r#"{"from":"en","to":"zh"}"#, "missing or invalid field `trans_result`"),
        (r#"{"from":"en","to":"zh","trans_result":{}}"#, "missing or invalid field `trans_result`"),
        (r#"{"from":"en","to":"zh","trans_result":["x"]}"#, "expected a JSON object"),
        (r#"{"from":"en","to":"zh","trans_result":[{"dst":"x"}]}"#, "missing or invalid field `src`"),
        (r#"{"from":"en","to":"zh","trans_result":[{"src":"x"}]}"#, "missing or invalid field `dst`"),
        (
            r#"{"from":"en","to":"zh","trans_result":[{"src":"a","dst":"b"},{"src":"a","dst":null}]}"#,
            "missing or invalid field `dst`",
        ),
    ];
    for (body, detail) in cases {
        assert_eq!(classify_response(body), Err(format!("{}{}", BAD_REPLY, detail)), "{}", body);
    }
}

#[test]
fn error_reply_of_another_shape_is_a_parse_failure() {
    let cases = [
        (r#"["error_msg"]"#, "expected a JSON object"),
        (r#"{"error_msg":"x"}"#, "missing or invalid field `error_code`"),
        (r#"{"error_code":52003,"error_msg":7}"#, "missing or invalid field `error_msg`"),
        (r#"{"error_code":52003,"error_msgs":"x"}"#, "missing or invalid field `error_msg`"),
    ];
    for (body, detail) in cases {
        assert_eq!(
            classify_response(body),
            Err(format!("{}{}", BAD_ERROR_REPLY, detail)),
            "{}",
            body
        );
    }
}

#[test]
fn unreadable_error_code_is_reported() {
    for body in [
        r#"{"error_code":null,"error_msg":"x"}"#,
        r#"{"error_code":-1,"error_msg":"x"}"#,
        r#"{"error_code":52003.0,"error_msg":"x"}"#,
        r#"{"error_code":"","error_msg":"x"}"#,
        r#"{"error_code":"52003 ","error_msg":"x"}"#,
        r#"{"error_code":"0x10","error_msg":"x"}"#,
        r#"{"error_code":"-5","error_msg":"x"}"#,
        r#"{"error_code":[52003],"error_msg":"x"}"#,
        r#"{"error_code":true,"error_msg":"x"}"#,
        r#"{"error_code":"99999999999999999999999999","error_msg":"x"}"#,
    ] {
        assert_eq!(
            classify_response(body),
            Err(":( failed to parse error code".to_string()),
            "{}",
            body
        );
    }
    assert_eq!(BAD_ERROR_CODE, ":( failed to parse error code");
}

#[test]
fn error_code_numerals_follow_integer_parsing() {
    assert_eq!(
        classify_response(r#"{"error_code":"+52000","error_msg":"x"}"#),
        Err(":( We asked, but server said: 成功".to_string())
    );
    assert_eq!(
        classify_response(r#"{"error_code":"00052000","error_msg":"x"}"#),
        Err(":( We asked, but server said: 成功".to_string())
    );
}

#[test]
fn transport_failure_is_passed_on() {
    assert_eq!(
        interpret_reply(Err("io: Connection refused".to_string())),
        Err(":( error sending request: io: Connection refused".to_string())
    );
    assert_eq!(interpret_reply(Err(String::new())), Err(SEND_FAILED.to_string()));
}

#[test]
fn patch_error_normalizes_the_code() {
    let response = patch_error(r#"{"error_code":"54003","error_msg":"Invalid Access Limit"}"#)
        .expect("an error report");
    assert_eq!(response.error_code, Some(54003));
    assert_eq!(response.error_msg, "Invalid Access Limit");
    let response = patch_error(r#"{"error_code":58001,"error_msg":""}"#).expect("an error report");
    assert_eq!(response.error_code, Some(58001));
    assert_eq!(response.error_msg, "");
    let response = patch_error(r#"{"error_code":{},"error_msg":"m"}"#).expect("an error report");
    assert_eq!(response.error_code, None);
}

#[test]
fn classify_parsed_follows_the_marker() {
    let reply = || {
        object(vec![
            ("from", text("en")),
            ("to", text("zh")),
            ("trans_result", Json::Array(vec![object(vec![("src", text("hi")), ("dst", text("嗨"))])])),
        ])
    };
    assert_eq!(classify_parsed(false, Ok(reply())), Ok("嗨".to_string()));
    assert_eq!(
        classify_parsed(true, Ok(reply())),
        Err(format!("{}{}", BAD_ERROR_REPLY, "missing or invalid field `error_code`"))
    );
    assert_eq!(
        classify_parsed(false, Err("why".to_string())),
        Err(":( Failed to parse successful response: why".to_string())
    );
    assert_eq!(
        classify_parsed(true, Err("why".to_string())),
        Err(":( Failed to parse error response: why".to_string())
    );
}

#[test]
fn translation_of_and_error_response_of_take_what_was_parsed() {
    assert_eq!(
        translation_of(Ok(object(vec![
            ("from", text("en")),
            ("to", text("zh")),
            ("trans_result", Json::Array(vec![])),
        ]))),
        Err(NO_RESULTS.to_string())
    );
    let report = error_response_of(Ok(object(vec![
        ("error_code", Json::Number(Some(52001))),
        ("error_msg", text("TIMEOUT")),
    ])))
    .expect("an error report");
    assert_eq!(report.error_code, Some(52001));
    assert_eq!(report.error_msg, "TIMEOUT");
}

#[test]
fn readers_report_the_first_problem() {
    let doc = object(vec![("to", Json::Null), ("trans_result", Json::Bool(true))]);
    assert_eq!(
        read_translation_response(&doc).err(),
        Some("missing or invalid field `from`".to_string())
    );
    let doc = object(vec![("error_code", Json::Null)]);
    assert_eq!(
        read_error_response(&doc).err(),
        Some("missing or invalid field `error_msg`".to_string())
    );
    let response = read_translation_response(&object(vec![
        ("from", text("en")),
        ("to", text("zh")),
        (
            "trans_result",
            Json::Array(vec![
                object(vec![("src", text("one")), ("dst", text("一"))]),
                object(vec![("src", text("two")), ("dst", text("二"))]),
            ]),
        ),
    ]))
    .ok()
    .expect("a reply with translations");
    assert_eq!(response.from, "en");
    assert_eq!(response.to, "zh");
    assert_eq!(response.trans_result.len(), 2);
    assert_eq!(response.trans_result[1].src, "two");
    assert_eq!(response.trans_result[1].dst, "二");
}

#[test]
fn normalize_error_code_accepts_both_forms() {
    assert_eq!(normalize_error_code(&Json::Number(Some(54001))), Some(54001));
    assert_eq!(normalize_error_code(&text("54001")), Some(54001));
    assert_eq!(normalize_error_code(&Json::Number(Some(0))), Some(0));
    assert_eq!(normalize_error_code(&text("0")), Some(0));
    assert_eq!(normalize_error_code(&Json::Number(None)), None);
    assert_eq!(normalize_error_code(&text("five")), None);
    assert_eq!(normalize_error_code(&Json::Null), None);
    assert_eq!(normalize_error_code(&Json::Bool(false)), None);
    assert_eq!(normalize_error_code(&Json::Array(vec![])), None);
}

#[test]
fn find_member_takes_the_first_match() {
    let members = vec![
        ("k".to_string(), text("first")),
        ("other".to_string(), Json::Null),
        ("k".to_string(), text("second")),
    ];
    assert_eq!(find_text(&members, "k"), Some(&"first".to_string()));
    assert!(matches!(find_member(&members, "other"), Some(Json::Null)));
    assert!(find_member(&members, "K").is_none());
    assert!(find_member(&Vec::new(), "k").is_none());
}
