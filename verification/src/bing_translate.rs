//! Bing web translator: language codes, the session token scraped from the
//! translator page, the request parameters, and how a reply is judged.
//!
//! The HTTP exchange itself is made by the caller; this module decides what is sent
//! and what a reply means, including when the cached token must be dropped.
use vstd::prelude::*;
use vstd::string::*;

use crate::error::{AppError, AppResult, ErrorView, result_view};
use crate::models::{TextTranslationResult, pair, pairs_view};
use crate::text::{
    chars_of, dec_digits, find_char_in, find_in, first_index_of, lemma_find_from, lowercase,
    occurs_at, push_decimal, same_text, slice_chars, text_of_range, lowercased,
    lemma_first_char_index,
};

verus! {

// ── Language codes ─────────────────────────────────────────────────────────

/// The Bing code for one of the application's language codes.
pub open spec fn bing_code(code: Seq<char>) -> Seq<char> {
    if code == "zh-CHS"@ {
        "zh-Hans"@
    } else if code == "zh-CHT"@ {
        "zh-Hant"@
    } else if code == "auto"@ {
        "auto-detect"@
    } else {
        code
    }
}

/// The application's code for a language code Bing reports.
pub open spec fn app_code_from_bing(code: Seq<char>) -> Seq<char> {
    if code == "zh-Hans"@ {
        "zh-CHS"@
    } else if code == "zh-Hant"@ {
        "zh-CHT"@
    } else if code == "auto-detect"@ {
        "auto"@
    } else {
        lowercased(code)
    }
}

/// Maps an application language code to the one Bing expects.
pub fn map_lang_code_bing(code: &str) -> (r: String)
    ensures
        r@ == bing_code(code@),
{
    if same_text(code, "zh-CHS") {
        "zh-Hans".to_owned()
    } else if same_text(code, "zh-CHT") {
        "zh-Hant".to_owned()
    } else if same_text(code, "auto") {
        "auto-detect".to_owned()
    } else {
        code.to_owned()
    }
}

/// Maps a language code Bing reports back to the application's code.
pub fn normalize_bing_lang(code: &str) -> (r: String)
    ensures
        r@ == app_code_from_bing(code@),
{
    if same_text(code, "zh-Hans") {
        "zh-CHS".to_owned()
    } else if same_text(code, "zh-Hant") {
        "zh-CHT".to_owned()
    } else if same_text(code, "auto-detect") {
        "auto".to_owned()
    } else {
        lowercase(code)
    }
}

/// Mapping an application code to Bing's and back gives the code again for the codes
/// Bing names differently (`zh-CHS`, `zh-CHT`, `auto`), and the code's lowercase for any
/// other code, except the Bing-only names themselves.
pub proof fn law_bing_codes_round_trip(code: Seq<char>)
    requires
        code != "zh-Hans"@,
        code != "zh-Hant"@,
        code != "auto-detect"@,
    ensures
        app_code_from_bing(bing_code(code)) == if code == "zh-CHS"@ || code == "zh-CHT"@ || code
            == "auto"@ {
            code
        } else {
            lowercased(code)
        },
{
    reveal_strlit("zh-CHS");
    reveal_strlit("zh-CHT");
    reveal_strlit("auto");
    reveal_strlit("zh-Hans");
    reveal_strlit("zh-Hant");
    reveal_strlit("auto-detect");
    assert("zh-Hant"@[6] != "zh-Hans"@[6]);
    assert("auto-detect"@[0] != "zh-Hans"@[0]);
    assert("auto-detect"@[0] != "zh-Hant"@[0]);
    assert("zh-CHT"@[5] != "zh-CHS"@[5]);
    assert("auto"@[0] != "zh-CHS"@[0]);
    assert("auto"@[0] != "zh-CHT"@[0]);
}

// ── Page scraping ──────────────────────────────────────────────────────────

/// The part of `s` before the first `c`, if `s` holds a `c`.
pub open spec fn before_char(s: Seq<char>, c: char) -> Option<Seq<char>> {
    match first_index_of(s, seq![c]) {
        Some(e) => Some(s.take(e)),
        None => None,
    }
}

/// What follows the first `prefix` in `html`, up to the next `;` (or the end).
pub open spec fn extracted_var(html: Seq<char>, prefix: Seq<char>) -> Option<Seq<char>> {
    match first_index_of(html, prefix) {
        None => None,
        Some(start) => {
            let rest = html.skip(start + prefix.len());
            match first_index_of(rest, seq![';']) {
                Some(end) => Some(rest.take(end)),
                None => Some(rest),
            }
        },
    }
}

/// The value of the first `data-iid="…"` attribute of `html`.
pub open spec fn extracted_iid(html: Seq<char>) -> Option<Seq<char>> {
    match first_index_of(html, "data-iid=\""@) {
        None => None,
        Some(start) => before_char(html.skip(start + 10), '"'),
    }
}

/// The first double-quoted string in `s`.
pub open spec fn first_quoted(s: Seq<char>) -> Option<Seq<char>> {
    match first_index_of(s, seq!['"']) {
        None => None,
        Some(start) => before_char(s.skip(start + 1), '"'),
    }
}

/// The string that follows the first `","` in `s`, up to the next `"`.
pub open spec fn second_quoted(s: Seq<char>) -> Option<Seq<char>> {
    match first_index_of(s, "\",\""@) {
        None => None,
        Some(start) => before_char(s.skip(start + 3), '"'),
    }
}

/// The page variable that holds the token value and signature.
pub open spec fn helper_prefix() -> Seq<char> {
    "params_RichTranslateHelper = ["@
}

/// The session token read from the translator page, or why there is none.
pub open spec fn bing_token_of(html: Seq<char>) -> Result<
    (Seq<char>, Seq<char>, Seq<char>, Seq<char>),
    ErrorView,
> {
    let helper = extracted_var(html, helper_prefix());
    let value = match helper {
        Some(s) => first_quoted(s),
        None => None,
    };
    let key = match helper {
        Some(s) => second_quoted(s),
        None => None,
    };
    let ig = match extracted_var(html, "IG:\""@) {
        Some(v) => Some(v),
        None => extracted_var(html, "IG: \""@),
    };
    let iid = match extracted_iid(html) {
        Some(v) => v,
        None => "translator.5023"@,
    };
    if value is None {
        Err(ErrorView::Api("Bing token value not found in page"@))
    } else if key is None {
        Err(ErrorView::Api("Bing token key not found in page"@))
    } else if ig is None {
        Err(ErrorView::Api("Bing IG not found in page"@))
    } else {
        Ok((value->0, key->0, ig->0, iid))
    }
}

/// A page whose first `data-iid="` attribute holds `v` yields a token with IID `v`:
/// the attribute's value is read up to its closing quote.
pub proof fn law_token_iid_is_page_attribute(a: Seq<char>, v: Seq<char>, b: Seq<char>)
    requires
        forall|j: int|
            0 <= j < a.len() ==> !occurs_at(a + "data-iid=\""@ + v + seq!['"'] + b, "data-iid=\""@, j),
        forall|j: int| 0 <= j < v.len() ==> v[j] != '"',
    ensures
        extracted_iid(a + "data-iid=\""@ + v + seq!['"'] + b) == Some(v),
        bing_token_of(a + "data-iid=\""@ + v + seq!['"'] + b) matches Ok(t) ==> t.3 == v,
{
    let pat = "data-iid=\""@;
    let html = a + pat + v + seq!['"'] + b;
    reveal_strlit("data-iid=\"");
    assert(pat.len() == 10);
    lemma_find_from(html, pat, 0);
    assert(html.subrange(a.len() as int, a.len() as int + 10) =~= pat);
    assert(occurs_at(html, pat, a.len() as int));
    assert(first_index_of(html, pat) == Some(a.len() as int));
    assert(html.skip(a.len() as int + 10) =~= v + seq!['"'] + b);
    lemma_first_char_index(v, '"', b);
    assert((v + seq!['"'] + b).take(v.len() as int) =~= v);
}

/// The optional text's view.
pub open spec fn opt_string(o: Option<String>) -> Option<Seq<char>> {
    match o {
        Some(s) => Some(s@),
        None => None,
    }
}

/// `v[from..]` up to the first `c`, when there is one.
fn chars_before(v: &Vec<char>, from: usize, c: char) -> (r: Option<String>)
    requires
        from <= v.len(),
    ensures
        opt_string(r) == before_char(v@.skip(from as int), c),
{
    let rest = slice_chars(v, from, v.len());
    assert(rest@ =~= v@.skip(from as int));
    match find_char_in(&rest, c, 0) {
        Some(e) => {
            proof {
                lemma_find_from(rest@, seq![c], 0);
                assert(seq![c].len() == 1);
            }
            let t = text_of_range(&rest, 0, e);
            assert(t@ =~= rest@.take(e as int));
            Some(t)
        },
        None => None,
    }
}

/// Index just after the first occurrence of `p` in `v`.
fn end_of_first(v: &Vec<char>, p: &Vec<char>) -> (r: Option<usize>)
    ensures
        match r {
            Some(e) => first_index_of(v@, p@) matches Some(s) && e == s + p@.len() && e <= v@.len(),
            None => first_index_of(v@, p@) is None,
        },
{
    let n = v.len();
    let m = p.len();
    match find_in(v, p, 0) {
        Some(s) => {
            proof {
                lemma_find_from(v@, p@, 0);
            }
            Some(s + p.len())
        },
        None => None,
    }
}

/// The text after the first `prefix` in `html`, up to the next `;` or the end.
pub fn extract_var(html: &str, prefix: &str) -> (r: Option<String>)
    ensures
        opt_string(r) == extracted_var(html@, prefix@),
{
    let h = chars_of(html);
    let p = chars_of(prefix);
    let start = match end_of_first(&h, &p) {
        Some(e) => e,
        None => return None,
    };
    let rest = slice_chars(&h, start, h.len());
    assert(rest@ =~= h@.skip(start as int));
    match find_char_in(&rest, ';', 0) {
        Some(end) => {
            proof {
                lemma_find_from(rest@, seq![';'], 0);
                assert(seq![';'].len() == 1);
            }
            let t = text_of_range(&rest, 0, end);
            assert(t@ =~= rest@.take(end as int));
            Some(t)
        },
        None => {
            let t = text_of_range(&rest, 0, rest.len());
            assert(t@ =~= rest@);
            Some(t)
        },
    }
}

/// The value of the first `data-iid="…"` attribute in `html`.
pub fn extract_iid(html: &str) -> (r: Option<String>)
    ensures
        opt_string(r) == extracted_iid(html@),
{
    let h = chars_of(html);
    let n = h.len();
    let marker = chars_of("data-iid=\"");
    let m = marker.len();
    match find_in(&h, &marker, 0) {
        Some(start) => {
            proof {
                lemma_find_from(h@, marker@, 0);
                reveal_strlit("data-iid=\"");
                assert(marker@.len() == 10);
            }
            chars_before(&h, start + 10, '"')
        },
        None => None,
    }
}

fn first_quoted_exec(s: &str) -> (r: Option<String>)
    ensures
        opt_string(r) == first_quoted(s@),
{
    let v = chars_of(s);
    let quote = chars_of("\"");
    proof {
        reveal_strlit("\"");
        assert(quote@ =~= seq!['"']);
    }
    match end_of_first(&v, &quote) {
        Some(e) => chars_before(&v, e, '"'),
        None => None,
    }
}

fn second_quoted_exec(s: &str) -> (r: Option<String>)
    ensures
        opt_string(r) == second_quoted(s@),
{
    let v = chars_of(s);
    let sep = chars_of("\",\"");
    proof {
        reveal_strlit("\",\"");
        assert(sep@.len() == 3);
    }
    match end_of_first(&v, &sep) {
        Some(e) => chars_before(&v, e, '"'),
        None => None,
    }
}

/// The session token the translator page hands out.
#[derive(Debug, Clone)]
pub struct BingToken {
    pub value: String,
    pub key: String,
    pub ig: String,
    pub iid: String,
}

impl View for BingToken {
    type V = (Seq<char>, Seq<char>, Seq<char>, Seq<char>);

    open spec fn view(&self) -> Self::V {
        (self.value@, self.key@, self.ig@, self.iid@)
    }
}

/// A copy of a token.
pub fn copy_token(t: &BingToken) -> (c: BingToken)
    ensures
        c@ == t@,
{
    BingToken {
        value: t.value.clone(),
        key: t.key.clone(),
        ig: t.ig.clone(),
        iid: t.iid.clone(),
    }
}

/// Reads the session token (value, signature, `IG`, `IID`) from the translator page.
pub fn bing_token_from_page(html: &str) -> (r: AppResult<BingToken>)
    ensures
        match r {
            Ok(t) => bing_token_of(html@) == Ok::<_, ErrorView>(t@),
            Err(e) => bing_token_of(html@) == Err::<(Seq<char>, Seq<char>, Seq<char>, Seq<char>), _>(
                e@,
            ),
        },
{
    let helper = extract_var(html, "params_RichTranslateHelper = [");
    let value = match &helper {
        Some(s) => first_quoted_exec(s.as_str()),
        None => None,
    };
    let value = match value {
        Some(v) => v,
        None => return Err(AppError::Api("Bing token value not found in page".to_owned())),
    };
    let key = match &helper {
        Some(s) => second_quoted_exec(s.as_str()),
        None => None,
    };
    let key = match key {
        Some(k) => k,
        None => return Err(AppError::Api("Bing token key not found in page".to_owned())),
    };
    let ig = match extract_var(html, "IG:\"") {
        Some(v) => Some(v),
        None => extract_var(html, "IG: \""),
    };
    let ig = match ig {
        Some(v) => v,
        None => return Err(AppError::Api("Bing IG not found in page".to_owned())),
    };
    let iid = match extract_iid(html) {
        Some(v) => v,
        None => "translator.5023".to_owned(),
    };
    Ok(BingToken { value, key, ig, iid })
}

// ── Token cache ────────────────────────────────────────────────────────────

/// The token kept between translations; dropped whenever Bing refuses a request.
pub struct BingTokenCache {
    token: Option<BingToken>,
}

impl View for BingTokenCache {
    type V = Option<(Seq<char>, Seq<char>, Seq<char>, Seq<char>)>;

    closed spec fn view(&self) -> Self::V {
        match self.token {
            Some(t) => Some(t@),
            None => None,
        }
    }
}

impl BingTokenCache {
    /// An empty cache.
    pub fn new() -> (c: Self)
        ensures
            c@ is None,
    {
        BingTokenCache { token: None }
    }

    /// The cached token, if any.
    pub fn cached(&self) -> (r: Option<BingToken>)
        ensures
            match r {
                Some(t) => self@ == Some(t@),
                None => self@ is None,
            },
    {
        match &self.token {
            Some(t) => Some(copy_token(t)),
            None => None,
        }
    }

    /// Keeps `token` for the following translations.
    pub fn store(&mut self, token: BingToken)
        ensures
            final(self)@ == Some(token@),
    {
        self.token = Some(token);
    }

    /// Drops the cached token.
    pub fn reset(&mut self)
        ensures
            final(self)@ is None,
    {
        self.token = None;
    }
}

// ── Request ────────────────────────────────────────────────────────────────

/// The query string of a translation request.
pub fn bing_query_params(token: &BingToken) -> (r: Vec<(String, String)>)
    ensures
        pairs_view(r@) == seq![
            ("isVertical"@, "1"@),
            (""@, ""@),
            ("IG"@, token.ig@),
            ("IID"@, token.iid@),
        ],
{
    let mut r: Vec<(String, String)> = Vec::new();
    r.push(pair("isVertical", "1"));
    r.push(pair("", ""));
    r.push(pair("IG", token.ig.as_str()));
    r.push(pair("IID", token.iid.as_str()));
    assert(pairs_view(r@) =~= seq![
        ("isVertical"@, "1"@),
        (""@, ""@),
        ("IG"@, token.ig@),
        ("IID"@, token.iid@),
    ]);
    r
}

/// The form body of a translation request for `text` from `from` to `to`.
pub fn bing_form_params(text: &str, from: &str, to: &str, token: &BingToken) -> (r: Vec<
    (String, String),
>)
    ensures
        pairs_view(r@) == seq![
            ("fromLang"@, bing_code(from@)),
            ("to"@, bing_code(to@)),
            ("text"@, text@),
            ("key"@, token.value@),
            ("tokenSig"@, token.key@),
        ],
{
    let from_bing = map_lang_code_bing(from);
    let to_bing = map_lang_code_bing(to);
    let mut r: Vec<(String, String)> = Vec::new();
    r.push(pair("fromLang", from_bing.as_str()));
    r.push(pair("to", to_bing.as_str()));
    r.push(pair("text", text));
    r.push(pair("key", token.value.as_str()));
    r.push(pair("tokenSig", token.key.as_str()));
    assert(pairs_view(r@) =~= seq![
        ("fromLang"@, bing_code(from@)),
        ("to"@, bing_code(to@)),
        ("text"@, text@),
        ("key"@, token.value@),
        ("tokenSig"@, token.key@),
    ]);
    r
}

// ── Reply ──────────────────────────────────────────────────────────────────

/// What `serde_json` finds in the JSON document `body` at the JSON pointer `pointer`:
/// the pointed value as an unsigned integer and as a string (each `None` when it is
/// not one, both `None` when nothing is there), or the parse error's message.
pub uninterp spec fn json_scalar_at(body: Seq<u8>, pointer: Seq<char>) -> Result<
    (Option<u64>, Option<Seq<char>>),
    Seq<char>,
>;

/// `serde_json::from_slice::<Value>` followed by `Value::pointer`, `as_u64` and
/// `as_str` on what is found: the result is named by `json_scalar_at`.
#[verifier::external_body]
fn json_scalar(body: &[u8], pointer: &str) -> (r: Result<(Option<u64>, Option<String>), String>)
    ensures
        match r {
            Ok((n, s)) => json_scalar_at(body@, pointer@) == Ok::<_, Seq<char>>(
                (n, opt_string(s)),
            ),
            Err(m) => json_scalar_at(body@, pointer@) == Err::<(Option<u64>, Option<Seq<char>>), _>(
                m@,
            ),
        },
{
    match serde_json::from_slice::<serde_json::Value>(body) {
        Ok(doc) => match doc.pointer(pointer) {
            Some(found) => {
                let text = match found.as_str() {
                    Some(t) => Some(t.to_owned()),
                    None => None,
                };
                Ok((found.as_u64(), text))
            },
            None => Ok((None, None)),
        },
        Err(e) => Err(e.to_string()),
    }
}

/// The three things a translation reply is judged by.
#[derive(Debug, Clone)]
pub struct BingReplyFields {
    /// The `statusCode` member, when it is an unsigned integer.
    pub status_code: Option<u64>,
    /// The first translation's text, when present.
    pub translated: Option<String>,
    /// The detected source language, when present.
    pub detected: Option<String>,
}

/// Where the reply's fields sit.
pub open spec fn status_pointer() -> Seq<char> {
    "/statusCode"@
}

pub open spec fn translated_pointer() -> Seq<char> {
    "/0/translations/0/text"@
}

pub open spec fn detected_pointer() -> Seq<char> {
    "/0/detectedLanguage/language"@
}

/// The text found by a lookup, if any.
pub open spec fn text_found(r: Result<(Option<u64>, Option<Seq<char>>), Seq<char>>) -> Option<
    Seq<char>,
> {
    match r {
        Ok((_, s)) => s,
        Err(_) => None,
    }
}

/// The fields of a reply body, or the JSON parse error's message.
pub open spec fn bing_reply_fields_of(body: Seq<u8>) -> Result<
    (Option<u64>, Option<Seq<char>>, Option<Seq<char>>),
    Seq<char>,
> {
    match json_scalar_at(body, status_pointer()) {
        Err(m) => Err(m),
        Ok((code, _)) => Ok(
            (
                code,
                text_found(json_scalar_at(body, translated_pointer())),
                text_found(json_scalar_at(body, detected_pointer())),
            ),
        ),
    }
}

/// The view of read reply fields.
pub open spec fn fields_view(f: BingReplyFields) -> (Option<u64>, Option<Seq<char>>, Option<Seq<char>>) {
    (f.status_code, opt_string(f.translated), opt_string(f.detected))
}

/// Reads the fields a translation reply is judged by from its JSON body.
pub fn read_bing_reply(body: &[u8]) -> (r: Result<BingReplyFields, String>)
    ensures
        match r {
            Ok(f) => bing_reply_fields_of(body@) == Ok::<_, Seq<char>>(fields_view(f)),
            Err(m) => bing_reply_fields_of(body@) == Err::<
                (Option<u64>, Option<Seq<char>>, Option<Seq<char>>),
                _,
            >(m@),
        },
{
    let status_code = match json_scalar(body, "/statusCode") {
        Ok((code, _)) => code,
        Err(m) => return Err(m),
    };
    let translated = match json_scalar(body, "/0/translations/0/text") {
        Ok((_, s)) => s,
        Err(_) => None,
    };
    let detected = match json_scalar(body, "/0/detectedLanguage/language") {
        Ok((_, s)) => s,
        Err(_) => None,
    };
    Ok(BingReplyFields { status_code, translated, detected })
}

/// How a reply is judged: the translation (text, detected language) or the error,
/// and whether the cached token is dropped.
pub open spec fn bing_outcome(
    http_status: u16,
    fields: Result<(Option<u64>, Option<Seq<char>>, Option<Seq<char>>), Seq<char>>,
    from: Seq<char>,
) -> (Result<(Seq<char>, Seq<char>), ErrorView>, bool) {
    if http_status == 429 {
        (Err(ErrorView::Api("Bing translate rate limited, token reset"@)), true)
    } else {
        match fields {
            Err(_) => (
                Err(ErrorView::Api("Bing translate parse failed: error decoding response body"@)),
                false,
            ),
            Ok((code, translated, detected)) => if code is Some && code->0 >= 400 {
                (
                    Err(
                        ErrorView::Api(
                            "Bing translate error: statusCode="@ + dec_digits(code->0 as nat),
                        ),
                    ),
                    true,
                )
            } else {
                let text = match translated {
                    Some(t) => t,
                    None => ""@,
                };
                let lang = match detected {
                    Some(d) => d,
                    None => from,
                };
                if text.len() == 0 {
                    (Err(ErrorView::Api("Bing translate returned empty result"@)), false)
                } else {
                    (Ok((text, app_code_from_bing(lang))), false)
                }
            },
        }
    }
}

/// The view of a text translation result.
pub open spec fn translation_view(r: AppResult<TextTranslationResult>) -> Result<
    (Seq<char>, Seq<char>),
    ErrorView,
> {
    match r {
        Ok(t) => Ok((t.translated_text@, t.from_lang_detected@)),
        Err(e) => Err(e@),
    }
}

/// The view of read reply fields, or the parse error.
pub open spec fn read_view(r: Result<BingReplyFields, String>) -> Result<
    (Option<u64>, Option<Seq<char>>, Option<Seq<char>>),
    Seq<char>,
> {
    match r {
        Ok(f) => Ok(fields_view(f)),
        Err(m) => Err(m@),
    }
}

/// Judges a reply (HTTP status and read body fields); drops the cached token when
/// Bing rate-limits (HTTP 429) or answers with a `statusCode` of 400 or more.
pub fn settle_bing_reply(
    cache: &mut BingTokenCache,
    http_status: u16,
    fields: Result<BingReplyFields, String>,
    from: &str,
) -> (r: AppResult<TextTranslationResult>)
    ensures
        translation_view(r) == bing_outcome(http_status, read_view(fields), from@).0,
        bing_outcome(http_status, read_view(fields), from@).1 ==> final(cache)@ is None,
        !bing_outcome(http_status, read_view(fields), from@).1 ==> final(cache)@ == old(cache)@,
{
    if http_status == 429 {
        cache.reset();
        return Err(AppError::Api("Bing translate rate limited, token reset".to_owned()));
    }
    let fields = match fields {
        Ok(f) => f,
        Err(_) => {
            return Err(
                AppError::Api("Bing translate parse failed: error decoding response body".to_owned()),
            );
        },
    };
    if let Some(code) = fields.status_code {
        if code >= 400 {
            cache.reset();
            let mut msg = "Bing translate error: statusCode=".to_owned();
            push_decimal(&mut msg, code as u128);
            return Err(AppError::Api(msg));
        }
    }
    let translated = match fields.translated {
        Some(t) => t,
        None => "".to_owned(),
    };
    let detected = match fields.detected {
        Some(d) => d,
        None => from.to_owned(),
    };
    if translated.as_str().is_empty() {
        return Err(AppError::Api("Bing translate returned empty result".to_owned()));
    }
    let lang = normalize_bing_lang(detected.as_str());
    Ok(TextTranslationResult { translated_text: translated, from_lang_detected: lang })
}

/// Judges the reply to a translation request from its HTTP status and JSON body.
pub fn interpret_bing_reply(
    cache: &mut BingTokenCache,
    http_status: u16,
    body: &[u8],
    from: &str,
) -> (r: AppResult<TextTranslationResult>)
    ensures
        translation_view(r) == bing_outcome(http_status, bing_reply_fields_of(body@), from@).0,
        bing_outcome(http_status, bing_reply_fields_of(body@), from@).1 ==> final(cache)@ is None,
        !bing_outcome(http_status, bing_reply_fields_of(body@), from@).1 ==> final(cache)@ == old(
            cache,
        )@,
{
    let fields = read_bing_reply(body);
    settle_bing_reply(cache, http_status, fields, from)
}

} // verus!
