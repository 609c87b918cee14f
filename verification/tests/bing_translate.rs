use glance::bing_translate::{
    bing_form_params, bing_query_params, bing_token_from_page, extract_iid, extract_var,
    interpret_bing_reply, map_lang_code_bing, normalize_bing_lang, BingToken, BingTokenCache,
};
use glance::error::AppError;

fn token() -> BingToken {
    BingToken {
        value: "123".into(),
        key: "abc".into(),
        ig: "IGVAL".into(),
        iid: "translator.5028".into(),
    }
}

fn api_error(r: Result<glance::models::TextTranslationResult, AppError>) -> String {
    match r {
        Err(AppError::Api(m)) => m,
        other => panic!("{:?}", other),
    }
}

#[test]
fn language_codes_round_trip() {
    assert_eq!(map_lang_code_bing("zh-CHS"), "zh-Hans");
    assert_eq!(map_lang_code_bing("zh-CHT"), "zh-Hant");
    assert_eq!(map_lang_code_bing("auto"), "auto-detect");
    assert_eq!(map_lang_code_bing("en"), "en");
    for code in ["zh-CHS", "zh-CHT", "auto"] {
        assert_eq!(normalize_bing_lang(&map_lang_code_bing(code)), code);
    }
    assert_eq!(normalize_bing_lang("EN"), "en");
    assert_eq!(normalize_bing_lang("ÄB"), "äb");
}

#[test]
fn page_variables() {
    let html = "var IG:\"ABCDEF\",x=1; params_RichTranslateHelper = [1700000000000,\"tok-en\",3600000]; <div data-iid=\"translator.5028\">";
    assert_eq!(extract_var(html, "IG:\"").as_deref(), Some("ABCDEF\",x=1"));
    assert_eq!(extract_var(html, "nothing"), None);
    assert_eq!(extract_var("a=b", "a=").as_deref(), Some("b"));
    assert_eq!(extract_iid(html).as_deref(), Some("translator.5028"));
    assert_eq!(extract_iid("data-iid=\"unterminated"), None);
}

#[test]
fn token_from_page() {
    let html = "IG:\"6A1F\";params_RichTranslateHelper = [1700000000000,\"tokenvalue\",\"sig\",3600000];data-iid=\"translator.5023\"";
    let t = bing_token_from_page(html).unwrap();
    assert_eq!(t.value, "tokenvalue");
    assert_eq!(t.key, "sig");
    assert_eq!(t.ig, "6A1F\"");
    assert_eq!(t.iid, "translator.5023");

    let html = "IG: \"X\";params_RichTranslateHelper = [\"v\",\"k\"];";
    let t = bing_token_from_page(html).unwrap();
    assert_eq!((t.value.as_str(), t.key.as_str(), t.ig.as_str(), t.iid.as_str()), ("v", "k", "X\"", "translator.5023"));

    match bing_token_from_page("nothing here") {
        Err(AppError::Api(m)) => assert_eq!(m, "Bing token value not found in page"),
        other => panic!("{:?}", other),
    }
    match bing_token_from_page("params_RichTranslateHelper = [\"v\"];") {
        Err(AppError::Api(m)) => assert_eq!(m, "Bing token key not found in page"),
        other => panic!("{:?}", other),
    }
    match bing_token_from_page("params_RichTranslateHelper = [\"v\",\"k\"];") {
        Err(AppError::Api(m)) => assert_eq!(m, "Bing IG not found in page"),
        other => panic!("{:?}", other),
    }
}

#[test]
fn request_parameters() {
    let t = token();
    let q = bing_query_params(&t);
    assert_eq!(
        q,
        vec![
            ("isVertical".to_string(), "1".to_string()),
            ("".to_string(), "".to_string()),
            ("IG".to_string(), "IGVAL".to_string()),
            ("IID".to_string(), "translator.5028".to_string()),
        ]
    );
    let f = bing_form_params("hello", "auto", "zh-CHS", &t);
    assert_eq!(
        f,
        vec![
            ("fromLang".to_string(), "auto-detect".to_string()),
            ("to".to_string(), "zh-Hans".to_string()),
            ("text".to_string(), "hello".to_string()),
            ("key".to_string(), "123".to_string()),
            ("tokenSig".to_string(), "abc".to_string()),
        ]
    );
}

#[test]
fn successful_reply() {
    let mut cache = BingTokenCache::new();
    cache.store(token());
    let body = br#"[{"detectedLanguage":{"language":"zh-Hans","score":1.0},"translations":[{"text":"hello","to":"en"}]}]"#;
    let r = interpret_bing_reply(&mut cache, 200, body, "auto").unwrap();
    assert_eq!(r.translated_text, "hello");
    assert_eq!(r.from_lang_detected, "zh-CHS");
    assert!(cache.cached().is_some());

    let body = br#"[{"translations":[{"text":"bonjour"}]}]"#;
    let r = interpret_bing_reply(&mut cache, 200, body, "EN").unwrap();
    assert_eq!(r.from_lang_detected, "en");
}

#[test]
fn refused_replies_drop_the_token() {
    let mut cache = BingTokenCache::new();
    cache.store(token());
    assert_eq!(
        api_error(interpret_bing_reply(&mut cache, 429, b"whatever", "en")),
        "Bing translate rate limited, token reset"
    );
    assert!(cache.cached().is_none());

    cache.store(token());
    assert_eq!(
        api_error(interpret_bing_reply(&mut cache, 200, br#"{"statusCode":400}"#, "en")),
        "Bing translate error: statusCode=400"
    );
    assert!(cache.cached().is_none());
}

#[test]
fn other_failures_keep_the_token() {
    let mut cache = BingTokenCache::new();
    cache.store(token());
    assert_eq!(
        api_error(interpret_bing_reply(&mut cache, 200, br#"{"statusCode":205}"#, "en")),
        "Bing translate returned empty result"
    );
    let msg = api_error(interpret_bing_reply(&mut cache, 200, b"<html>", "en"));
    assert_eq!(msg, "Bing translate parse failed: error decoding response body");
    assert_eq!(
        api_error(interpret_bing_reply(&mut cache, 200, br#"[{"translations":[{"text":""}]}]"#, "en")),
        "Bing translate returned empty result"
    );
    assert_eq!(cache.cached().unwrap().value, "123");
}
