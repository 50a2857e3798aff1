use rustc_serialize::json::ErrorCode;
use rustc_serialize::json::ParserError;
use yandex_dictionary::Api;
use yandex_dictionary::ApiError;
use yandex_dictionary::ErrorKind;
use yandex_dictionary::JsonValue;
use yandex_dictionary::Reply;
use yandex_dictionary::RequestError;
use yandex_dictionary::VarError;

/// An environment with one variable in it.
fn env_var(name: &str) -> Result<String, VarError> {
    if name == "YANDEX_DICTIONARY_TOKEN" {
        Ok("dict.1.1.20150101T000000Z.0123456789abcdef".to_string())
    } else {
        Err(VarError::NotPresent)
    }
}

fn ok(body: &str) -> Reply {
    Reply { status: 200, body: body.to_string() }
}

fn failed(status: u16, body: &str) -> Reply {
    Reply { status, body: body.to_string() }
}

const LANGS_BODY: &str = r#"["ru-ru","ru-en","en-ru","en-en","en-de","de-en"]"#;

const RUST_BODY: &str = r#"{"head":{},"def":[
  {"text":"rust","pos":"noun","ts":"rʌst","tr":[
    {"text":"ржавчина","pos":"noun","gen":"ж","syn":[{"text":"коррозия","pos":"noun","gen":"ж"}],
     "mean":[{"text":"corrosion"}]},
    {"text":"налет","pos":"noun","gen":"м"}]},
  {"text":"rust","pos":"verb","ts":"rʌst","tr":[
    {"text":"ржаветь","pos":"verb","asp":"несов","syn":[{"text":"заржаветь","pos":"verb"}]}]},
  {"text":"rust","pos":"adjective","ts":"rʌst","tr":[
    {"text":"ржавый","pos":"adjective"}]}]}"#;

#[test]
fn check_get_langs() {
    let api = Api::from_env(env_var("YANDEX_DICTIONARY_TOKEN")).unwrap();
    let langs = api.get_langs(&ok(LANGS_BODY)).unwrap();
    assert!(langs.contains(&"en-ru".to_string()));
}

#[test]
fn check_lookup() {
    let api = Api::from_env(env_var("YANDEX_DICTIONARY_TOKEN")).unwrap();
    assert!(api.lookup_url("en-ru", "rust").ends_with("&lang=en-ru&text=rust"));
    api.lookup(&ok(RUST_BODY)).unwrap();
}

#[test]
fn check_lookup_def() {
    let api = Api::from_env(env_var("YANDEX_DICTIONARY_TOKEN")).unwrap();
    assert!(api.lookup_url("en-ru", "rust").ends_with("&lang=en-ru&text=rust"));
    let defs = api.lookup_def(&ok(RUST_BODY)).unwrap();
    assert_eq!(defs.len(), 3);
    for def in defs {
        assert_eq!(def.word.text, "rust");
        assert_eq!(def.word.ts.as_ref().unwrap(), "r\u{28c}st");
        assert!(def.trans.len() > 0);
        let text = &def.trans[0].text;
        let pos = def.word.pos.as_ref().unwrap();
        if pos == "noun" {
            assert_eq!(text, "\u{440}\u{436}\u{430}\u{432}\u{447}\u{438}\u{43d}\u{430}");
        } else if pos == "verb" {
            assert_eq!(text, "\u{440}\u{436}\u{430}\u{432}\u{435}\u{442}\u{44c}");
        } else if pos == "adjective" {
            assert_eq!(text, "\u{440}\u{436}\u{430}\u{432}\u{44b}\u{439}");
        } else {
            panic!("Unknown pos of 'rust' word: {}", pos);
        }
    }
}

#[test]
fn from_token_keeps_the_credential() {
    let api = Api::from_token("secret").unwrap();
    assert_eq!(
        api.get_langs_url(),
        "https://dictionary.yandex.net/api/v1/dicservice.json/getLangs?key=secret"
    );
}

#[test]
fn from_env_takes_the_credential_found() {
    let api = Api::from_env(Ok("from-env".to_string())).unwrap();
    assert_eq!(
        api.get_langs_url(),
        "https://dictionary.yandex.net/api/v1/dicservice.json/getLangs?key=from-env"
    );
}

#[test]
fn from_env_without_the_variable_is_a_configuration_error() {
    let made = Api::from_env(env_var("NO_SUCH_VARIABLE"));
    assert!(matches!(made, Err(ApiError::InvalidEnvironmentVar(VarError::NotPresent))));
}

#[test]
fn from_env_with_a_variable_that_is_no_unicode_is_a_configuration_error() {
    let made = Api::from_env(Err(VarError::NotUnicode));
    assert!(matches!(made, Err(ApiError::InvalidEnvironmentVar(VarError::NotUnicode))));
}

#[test]
fn lookup_url_of_a_plain_word() {
    let api = Api::from_token("k").unwrap();
    assert_eq!(
        api.lookup_url("en-ru", "rust"),
        "https://dictionary.yandex.net/api/v1/dicservice.json/lookup?key=k&lang=en-ru&text=rust"
    );
}

#[test]
fn lookup_url_encodes_the_text() {
    let api = Api::from_token("k").unwrap();
    assert_eq!(
        api.lookup_url("ru-en", "ржа & co?"),
        "https://dictionary.yandex.net/api/v1/dicservice.json/lookup?key=k&lang=ru-en\
         &text=%D1%80%D0%B6%D0%B0%20%26%20co%3F"
    );
}

#[test]
fn lookup_url_encodes_the_languages() {
    let api = Api::from_token("k").unwrap();
    assert_eq!(
        api.lookup_url("en&ru", "a"),
        "https://dictionary.yandex.net/api/v1/dicservice.json/lookup?key=k&lang=en%26ru&text=a"
    );
}

#[test]
fn get_langs_keeps_the_strings_in_order_and_drops_the_rest() {
    let api = Api::from_token("k").unwrap();
    let body = r#"["en-ru", 5, "ru-en", null, {"a": "x"}, ["de-en"], true, 1.5, "en-en"]"#;
    let langs = api.get_langs(&ok(body)).unwrap();
    assert_eq!(langs, vec!["en-ru".to_string(), "ru-en".to_string(), "en-en".to_string()]);
}

#[test]
fn get_langs_of_an_empty_array_is_empty() {
    let api = Api::from_token("k").unwrap();
    assert_eq!(api.get_langs(&ok("[]")).unwrap(), Vec::<String>::new());
    assert_eq!(api.get_langs(&ok("[1, 2]")).unwrap(), Vec::<String>::new());
}

#[test]
fn get_langs_of_what_is_no_array_is_a_format_error() {
    let api = Api::from_token("k").unwrap();
    for body in [r#"{"langs": ["en-ru"]}"#, r#""en-ru""#, "5", "null"] {
        let error = api.get_langs(&ok(body)).unwrap_err();
        assert_eq!(error.kind(), ErrorKind::InvalidDataFormat);
    }
}

#[test]
fn a_code_under_a_failed_status_is_the_failure_it_stands_for() {
    let api = Api::from_token("k").unwrap();
    let table = [
        (401u64, ErrorKind::KeyInvalid),
        (402, ErrorKind::KeyBlocked),
        (403, ErrorKind::DailyLimitExceeded),
        (413, ErrorKind::TextTooLong),
        (501, ErrorKind::LangNotSupported),
        (0, ErrorKind::UnknownError(0)),
        (200, ErrorKind::UnknownError(200)),
        (400, ErrorKind::UnknownError(400)),
        (502, ErrorKind::UnknownError(502)),
        (18446744073709551615, ErrorKind::UnknownError(18446744073709551615)),
    ];
    for (code, kind) in table {
        let body = format!("{{\"code\": {}, \"message\": \"no\"}}", code);
        for status in [400u16, 401, 403, 404, 500, 201, 0] {
            let reply = failed(status, &body);
            assert_eq!(api.get_langs(&reply).unwrap_err().kind(), kind);
            assert_eq!(api.lookup(&reply).unwrap_err().kind(), kind);
            assert_eq!(api.lookup_def(&reply).unwrap_err().kind(), kind);
            assert_eq!(reply.fetch_json().unwrap_err().kind(), kind);
        }
    }
}

#[test]
fn status_403_with_code_403_is_the_daily_limit() {
    let api = Api::from_token("k").unwrap();
    let body = r#"{"code":403,"message":"..."}"#;
    let error = api.lookup_def(&failed(403, body)).unwrap_err();
    assert!(matches!(error, RequestError::DailyLimitExceeded));
    let error = api.lookup_def(&failed(500, body)).unwrap_err();
    assert!(matches!(error, RequestError::DailyLimitExceeded));
    let error = api.get_langs(&failed(429, body)).unwrap_err();
    assert!(matches!(error, RequestError::DailyLimitExceeded));
}

#[test]
fn the_code_is_not_the_http_status() {
    let api = Api::from_token("k").unwrap();
    let error = api.lookup(&failed(403, r#"{"code":501}"#)).unwrap_err();
    assert!(matches!(error, RequestError::LangNotSupported));
}

#[test]
fn under_status_ok_the_body_is_what_was_asked_for() {
    let api = Api::from_token("k").unwrap();
    let body = r#"{"code":403,"message":"..."}"#;
    let object = api.lookup(&ok(body)).unwrap();
    assert_eq!(object.find("code"), Some(&JsonValue::U64(403)));
    let error = api.lookup_def(&ok(body)).unwrap_err();
    assert!(matches!(error, RequestError::InvalidDataFormat));
}

#[test]
fn a_failed_status_without_a_usable_code_is_a_format_error() {
    let api = Api::from_token("k").unwrap();
    let bodies = [
        r#"{"message":"no code"}"#,
        r#"{"code":"403"}"#,
        r#"{"code":-403}"#,
        r#"{"code":403.0}"#,
        r#"{"code":null}"#,
        r#"{"code":[403]}"#,
        r#"[403]"#,
        r#"403"#,
        r#""403""#,
        r#"{}"#,
    ];
    for body in bodies {
        let reply = failed(403, body);
        assert_eq!(api.get_langs(&reply).unwrap_err().kind(), ErrorKind::InvalidDataFormat);
        assert_eq!(api.lookup(&reply).unwrap_err().kind(), ErrorKind::InvalidDataFormat);
        assert_eq!(api.lookup_def(&reply).unwrap_err().kind(), ErrorKind::InvalidDataFormat);
    }
}

#[test]
fn a_body_that_is_no_json_is_a_parse_error_under_any_status() {
    let api = Api::from_token("k").unwrap();
    for status in [200u16, 403, 500] {
        for body in ["", "<html>", "{\"def\":", "[1,]", "{\"code\":403} x"] {
            let reply = failed(status, body);
            assert!(matches!(api.get_langs(&reply), Err(RequestError::ParseError(_))));
            assert!(matches!(api.lookup(&reply), Err(RequestError::ParseError(_))));
            assert!(matches!(api.lookup_def(&reply), Err(RequestError::ParseError(_))));
        }
    }
}

#[test]
fn a_parse_error_carries_the_parsers_diagnostic() {
    let error = ok("[1,").fetch_json().unwrap_err();
    match error {
        RequestError::ParseError(ParserError::SyntaxError(code, line, col)) => {
            assert!(code == ErrorCode::EOFWhileParsingValue);
            assert_eq!((line, col), (1, 4));
        }
        other => panic!("not a syntax error: {:?}", other),
    }
}

#[test]
fn a_comma_before_the_last_brace_is_the_parsers_trailing_comma() {
    let error = ok(r#"{"a":1,}"#).fetch_json().unwrap_err();
    match error {
        RequestError::ParseError(ParserError::SyntaxError(code, line, col)) => {
            assert!(code == ErrorCode::TrailingComma);
            assert_eq!((line, col), (1, 8));
        }
        other => panic!("not a syntax error: {:?}", other),
    }
}

#[test]
fn lookup_gives_the_object_as_it_came() {
    let api = Api::from_token("k").unwrap();
    let object = api.lookup(&ok(r#"{"head":{},"def":[],"n":-2}"#)).unwrap();
    let expected = JsonValue::Object(vec![
        ("def".to_string(), JsonValue::Array(vec![])),
        ("head".to_string(), JsonValue::Object(vec![])),
        ("n".to_string(), JsonValue::I64(-2)),
    ]);
    assert_eq!(object, expected);
}

#[test]
fn lookup_of_what_is_no_object_is_a_format_error() {
    let api = Api::from_token("k").unwrap();
    for body in ["[]", r#"[{"def":[]}]"#, "1", r#""def""#, "null", "true"] {
        let error = api.lookup(&ok(body)).unwrap_err();
        assert_eq!(error.kind(), ErrorKind::InvalidDataFormat);
        let error = api.lookup_def(&ok(body)).unwrap_err();
        assert_eq!(error.kind(), ErrorKind::InvalidDataFormat);
    }
}

#[test]
fn lookup_def_of_the_sample_reply() {
    let api = Api::from_token("k").unwrap();
    let body = r#"{"def":[{"text":"rust","pos":"noun","ts":"rʌst","tr":[{"text":"ржавчина"}]}]}"#;
    let defs = api.lookup_def(&ok(body)).unwrap();
    assert_eq!(defs.len(), 1);
    assert_eq!(defs[0].word.text, "rust");
    assert_eq!(defs[0].word.pos, Some("noun".to_string()));
    assert_eq!(defs[0].word.ts, Some("rʌst".to_string()));
    assert_eq!(defs[0].trans.len(), 1);
    assert_eq!(defs[0].trans[0].text, "ржавчина");
    assert_eq!(defs[0].trans[0].pos, None);
    assert_eq!(defs[0].trans[0].ts, None);
}

#[test]
fn lookup_def_keeps_the_order_of_definitions_and_translations() {
    let api = Api::from_token("k").unwrap();
    let body = r#"{"def":[
        {"text":"b","tr":[{"text":"b2","ts":"t"},{"text":"b1","pos":"p"}]},
        {"text":"a","tr":[]},
        {"text":"c","tr":[{"text":"c1"}]}]}"#;
    let defs = api.lookup_def(&ok(body)).unwrap();
    let heads: Vec<&str> = defs.iter().map(|def| def.word.text.as_str()).collect();
    assert_eq!(heads, vec!["b", "a", "c"]);
    let first: Vec<&str> = defs[0].trans.iter().map(|word| word.text.as_str()).collect();
    assert_eq!(first, vec!["b2", "b1"]);
    assert_eq!(defs[0].trans[0].ts, Some("t".to_string()));
    assert_eq!(defs[0].trans[0].pos, None);
    assert_eq!(defs[0].trans[1].pos, Some("p".to_string()));
    assert_eq!(defs[0].trans[1].ts, None);
    assert!(defs[1].trans.is_empty());
}

#[test]
fn lookup_def_without_definitions_is_empty() {
    let api = Api::from_token("k").unwrap();
    assert!(api.lookup_def(&ok(r#"{"head":{},"def":[]}"#)).unwrap().is_empty());
}

#[test]
fn lookup_def_takes_an_optional_field_only_where_it_is_a_string() {
    let api = Api::from_token("k").unwrap();
    let body = r#"{"def":[{"text":"a","pos":5,"ts":null,"tr":[{"text":"b","pos":["x"],"ts":{}}]}]}"#;
    let defs = api.lookup_def(&ok(body)).unwrap();
    assert_eq!(defs[0].word.pos, None);
    assert_eq!(defs[0].word.ts, None);
    assert_eq!(defs[0].trans[0].pos, None);
    assert_eq!(defs[0].trans[0].ts, None);
}

#[test]
fn lookup_def_with_a_field_missing_is_a_format_error() {
    let api = Api::from_token("k").unwrap();
    let bodies = [
        r#"{"head":{}}"#,
        r#"{"def":[{"pos":"noun","tr":[]}]}"#,
        r#"{"def":[{"text":"rust"}]}"#,
        r#"{"def":[{"text":"rust","tr":[{"pos":"noun"}]}]}"#,
        r#"{"def":[{"text":"rust","tr":[{"text":"a"},{"ts":"b"}]}]}"#,
        r#"{"def":[{"text":"rust","tr":[{"text":"a"}]},{"text":"rust"}]}"#,
        r#"{"def":[{"text":"rust","tr":[{"text":"a"}]},{"tr":[]}]}"#,
    ];
    for body in bodies {
        let error = api.lookup_def(&ok(body)).unwrap_err();
        assert!(matches!(error, RequestError::InvalidDataFormat), "{}", body);
    }
}

#[test]
fn lookup_def_with_a_field_of_another_type_is_a_format_error() {
    let api = Api::from_token("k").unwrap();
    let bodies = [
        r#"{"def":{}}"#,
        r#"{"def":"rust"}"#,
        r#"{"def":["rust"]}"#,
        r#"{"def":[[]]}"#,
        r#"{"def":[{"text":5,"tr":[]}]}"#,
        r#"{"def":[{"text":"rust","tr":{}}]}"#,
        r#"{"def":[{"text":"rust","tr":"a"}]}"#,
        r#"{"def":[{"text":"rust","tr":["a"]}]}"#,
        r#"{"def":[{"text":"rust","tr":[{"text":null}]}]}"#,
    ];
    for body in bodies {
        let error = api.lookup_def(&ok(body)).unwrap_err();
        assert!(matches!(error, RequestError::InvalidDataFormat), "{}", body);
    }
}

#[test]
fn a_body_outside_the_limits_is_a_format_error() {
    let api = Api::from_token("k").unwrap();
    let deep = format!("{}{}", "[".repeat(129), "]".repeat(129));
    let error = api.get_langs(&ok(&deep)).unwrap_err();
    assert!(matches!(error, RequestError::InvalidDataFormat));
    let error = api.lookup(&failed(500, "[1e340282366920938463463374607431768211456]")).unwrap_err();
    assert!(matches!(error, RequestError::InvalidDataFormat));
    let body = r#"[{"k":{"a":1,},"z":2}]"#;
    for status in [200u16, 403] {
        let reply = failed(status, body);
        assert!(matches!(reply.fetch_json(), Err(RequestError::InvalidDataFormat)));
        assert!(matches!(api.get_langs(&reply), Err(RequestError::InvalidDataFormat)));
        assert!(matches!(api.lookup(&reply), Err(RequestError::InvalidDataFormat)));
        assert!(matches!(api.lookup_def(&reply), Err(RequestError::InvalidDataFormat)));
    }
}

#[test]
fn the_error_for_a_code() {
    assert!(matches!(RequestError::from(401u64), RequestError::KeyInvalid));
    assert!(matches!(RequestError::from(402u64), RequestError::KeyBlocked));
    assert!(matches!(RequestError::from(403u64), RequestError::DailyLimitExceeded));
    assert!(matches!(RequestError::from(413u64), RequestError::TextTooLong));
    assert!(matches!(RequestError::from(501u64), RequestError::LangNotSupported));
    assert!(matches!(RequestError::from(404u64), RequestError::UnknownError(404)));
    assert!(matches!(RequestError::from(0u64), RequestError::UnknownError(0)));
}

#[test]
fn the_error_for_a_failure_of_the_transport() {
    let error = RequestError::from(hyper::error::Error::Method);
    assert!(matches!(error, RequestError::HyperError(hyper::error::Error::Method)));
    assert_eq!(error.kind(), ErrorKind::HyperError);
    let cause = std::io::Error::new(std::io::ErrorKind::UnexpectedEof, "cut");
    let error = RequestError::from(cause);
    assert_eq!(error.kind(), ErrorKind::IOError);
    match error {
        RequestError::IOError(cause) => assert_eq!(cause.kind(), std::io::ErrorKind::UnexpectedEof),
        other => panic!("not an IOError: {:?}", other),
    }
    let bytes: Vec<u8> = vec![0x72, 0xff];
    let cause = std::str::from_utf8(&bytes).unwrap_err();
    let error = RequestError::from(cause);
    assert_eq!(error.kind(), ErrorKind::EncodingError);
    match error {
        RequestError::EncodingError(cause) => assert_eq!(cause.valid_up_to(), 1),
        other => panic!("not an EncodingError: {:?}", other),
    }
}

#[test]
fn the_kind_of_each_error() {
    assert_eq!(RequestError::KeyInvalid.kind(), ErrorKind::KeyInvalid);
    assert_eq!(RequestError::KeyBlocked.kind(), ErrorKind::KeyBlocked);
    assert_eq!(RequestError::DailyLimitExceeded.kind(), ErrorKind::DailyLimitExceeded);
    assert_eq!(RequestError::TextTooLong.kind(), ErrorKind::TextTooLong);
    assert_eq!(RequestError::LangNotSupported.kind(), ErrorKind::LangNotSupported);
    assert_eq!(RequestError::InvalidDataFormat.kind(), ErrorKind::InvalidDataFormat);
    assert_eq!(RequestError::UnknownError(7).kind(), ErrorKind::UnknownError(7));
    let error = ok("?").fetch_json().unwrap_err();
    assert_eq!(error.kind(), ErrorKind::ParseError);
}
