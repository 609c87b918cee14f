use glance::error::AppError;
use glance::youdao_text_translate::{
    interpret_youdao_reply, normalize_to_youdao, normalize_youdao_lang, youdao_query_params,
    youdao_type_code, YoudaoReply, YoudaoSegment,
};

fn seg(tgt: &str) -> YoudaoSegment {
    YoudaoSegment {
        tgt: tgt.into(),
        src: String::new(),
    }
}

#[test]
fn language_codes() {
    assert_eq!(normalize_to_youdao("zh-CN"), "ZH_CN");
    assert_eq!(normalize_to_youdao("zh-TW"), "ZH_CHT");
    assert_eq!(normalize_to_youdao("th"), "TH");
    assert_eq!(normalize_to_youdao("xx"), "AUTO");
    assert_eq!(youdao_type_code("en", "zh-CHS"), "EN2ZH_CN");
    assert_eq!(youdao_type_code("auto", "ja"), "AUTO");
    assert_eq!(youdao_type_code("ja", "klingon"), "AUTO");
    assert_eq!(normalize_youdao_lang("ZH_CHT"), "zh-CHT");
    assert_eq!(normalize_youdao_lang("VI"), "vi");
    assert_eq!(normalize_youdao_lang("KO"), "ko");
}

#[test]
fn query_parameters() {
    assert_eq!(
        youdao_query_params("hi", "en", "fr"),
        vec![
            ("doctype".to_string(), "json".to_string()),
            ("type".to_string(), "EN2FR".to_string()),
            ("i".to_string(), "hi".to_string()),
        ]
    );
}

#[test]
fn reply_is_joined_and_language_detected() {
    let reply = YoudaoReply {
        type_code: "EN2ZH_CN".into(),
        error_code: 0,
        translate_result: vec![vec![seg("你好"), seg("，")], vec![seg("世界")]],
    };
    let r = interpret_youdao_reply(&reply, "auto").unwrap();
    assert_eq!(r.translated_text, "你好，世界");
    assert_eq!(r.from_lang_detected, "en");
    let r = interpret_youdao_reply(&reply, "ja").unwrap();
    assert_eq!(r.from_lang_detected, "ja");
}

#[test]
fn reply_errors() {
    let reply = YoudaoReply {
        type_code: "AUTO".into(),
        error_code: -40,
        translate_result: vec![vec![seg("x")]],
    };
    match interpret_youdao_reply(&reply, "auto") {
        Err(AppError::Api(m)) => assert_eq!(m, "Youdao text translate error: errorCode=-40"),
        other => panic!("{:?}", other),
    }
    let reply = YoudaoReply {
        type_code: "AUTO".into(),
        error_code: 0,
        translate_result: vec![vec![], vec![seg("")]],
    };
    match interpret_youdao_reply(&reply, "auto") {
        Err(AppError::Api(m)) => assert_eq!(m, "Youdao text translate returned empty result"),
        other => panic!("{:?}", other),
    }
}

#[test]
fn type_without_separator_is_its_own_language() {
    let reply = YoudaoReply {
        type_code: "EN".into(),
        error_code: 0,
        translate_result: vec![vec![seg("x")]],
    };
    assert_eq!(interpret_youdao_reply(&reply, "auto").unwrap().from_lang_detected, "en");
}

#[test]
fn codes_survive_a_round_trip() {
    for (code, back) in [
        ("zh-CHS", "zh-CHS"),
        ("zh-CN", "zh-CHS"),
        ("zh", "zh-CHS"),
        ("zh-TW", "zh-CHT"),
        ("en", "en"),
        ("it", "it"),
        ("vi", "vi"),
        ("th", "th"),
    ] {
        assert_eq!(normalize_youdao_lang(normalize_to_youdao(code)), back);
    }
}
