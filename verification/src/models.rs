//! Plain data records exchanged with the user interface.
use vstd::prelude::*;

use crate::text::{all_ascii, chars_of, text_of_range};

verus! {

/// How much of the history to list.
#[derive(Debug, Clone)]
pub struct HistoryQuery {
    pub limit: Option<usize>,
}

/// One line of text inside a translated region.
#[derive(Debug, Clone)]
pub struct RegionLine {
    pub text: String,
}

/// A source text and its translation.
#[derive(Debug, Clone)]
pub struct TranslationPair {
    pub source: String,
    pub target: String,
}

/// The outcome of translating a piece of text.
#[derive(Debug, Clone)]
pub struct TextTranslationResult {
    pub translated_text: String,
    pub from_lang_detected: String,
}

/// A rectangle of the captured screenshot, in physical pixels.
#[derive(Debug, Clone, Copy, PartialEq, Eq, Structural)]
pub struct CaptureRect {
    pub x: u32,
    pub y: u32,
    pub width: u32,
    pub height: u32,
}

/// The views of a list of name/value pairs.
pub open spec fn pairs_view(v: Seq<(String, String)>) -> Seq<(Seq<char>, Seq<char>)> {
    Seq::new(v.len(), |i: int| (v[i].0@, v[i].1@))
}

pub fn pair(name: &str, value: &str) -> (p: (String, String))
    ensures
        p.0@ == name@,
        p.1@ == value@,
{
    (name.to_owned(), value.to_owned())
}

/// The global shortcut that starts a capture unless the user chose another.
pub open spec fn default_hotkey_text() -> Seq<char> {
    "CommandOrControl+Shift+X"@
}

/// The global shortcut that starts a capture unless the user chose another.
pub fn default_hotkey() -> (s: String)
    ensures
        s@ == default_hotkey_text(),
{
    "CommandOrControl+Shift+X".to_owned()
}

// ── Device identifier ──────────────────────────────────────────────────────

/// `c` is a lowercase hexadecimal digit.
pub open spec fn is_lower_hex(c: char) -> bool {
    (48 <= (c as u32) <= 57) || (97 <= (c as u32) <= 102)
}

/// A position of a hyphen in the hyphenated UUID form `8-4-4-4-12`.
pub open spec fn is_uuid_hyphen_position(i: int) -> bool {
    i == 8 || i == 13 || i == 18 || i == 23
}

/// `s` is a UUID in lowercase hyphenated form, as `Uuid`'s `Display` writes it.
pub open spec fn hyphenated_uuid_text(s: Seq<char>) -> bool {
    &&& s.len() == 36
    &&& forall|i: int|
        0 <= i < 36 ==> if is_uuid_hyphen_position(i) {
            s[i] == '-'
        } else {
            is_lower_hex(#[trigger] s[i])
        }
}

/// The marks every version-4 UUID carries in its text: the version digit `4` and a
/// variant digit among `8`, `9`, `a` and `b`.
pub open spec fn uuid_v4_marks(s: Seq<char>) -> bool {
    &&& s[14] == '4'
    &&& (s[19] == '8' || s[19] == '9' || s[19] == 'a' || s[19] == 'b')
}

/// `s` with every `-` removed.
pub open spec fn without_hyphens(s: Seq<char>) -> Seq<char>
    decreases s.len(),
{
    if s.len() == 0 {
        seq![]
    } else if s.last() == '-' {
        without_hyphens(s.drop_last())
    } else {
        without_hyphens(s.drop_last()).push(s.last())
    }
}

/// `Uuid::new_v4().to_string()`: a random version-4 UUID; whatever it is, it is written
/// in lowercase hyphenated form and carries the version and variant digits.
#[verifier::external_body]
fn random_uuid_text() -> (s: String)
    ensures
        hyphenated_uuid_text(s@),
        uuid_v4_marks(s@),
{
    uuid::Uuid::new_v4().to_string()
}

/// The device identifier made from a UUID's text: its first 17 characters once the
/// hyphens are removed.
pub fn yduuid_from(uuid_text: &str) -> (r: String)
    requires
        all_ascii(uuid_text@),
        without_hyphens(uuid_text@).len() >= 17,
    ensures
        r@ == without_hyphens(uuid_text@).take(17),
{
    let v = chars_of(uuid_text);
    let mut kept: Vec<char> = Vec::new();
    let mut i: usize = 0;
    while i < v.len()
        invariant
            i <= v@.len(),
            kept@ == without_hyphens(v@.take(i as int)),
        decreases v@.len() - i,
    {
        assert(v@.take(i + 1).drop_last() =~= v@.take(i as int));
        if v[i] != '-' {
            kept.push(v[i]);
        }
        i = i + 1;
    }
    assert(v@.take(v@.len() as int) =~= v@);
    let r = text_of_range(&kept, 0, 17);
    assert(r@ =~= without_hyphens(uuid_text@).take(17));
    r
}

/// The hyphen positions before index `k` of the hyphenated UUID form.
pub open spec fn hyphens_before(k: int) -> int {
    (if k > 8 {
        1int
    } else {
        0
    }) + (if k > 13 {
        1int
    } else {
        0
    }) + (if k > 18 {
        1int
    } else {
        0
    }) + (if k > 23 {
        1int
    } else {
        0
    })
}

proof fn lemma_uuid_prefix(s: Seq<char>, k: int)
    requires
        hyphenated_uuid_text(s),
        0 <= k <= 36,
    ensures
        without_hyphens(s.take(k)).len() == k - hyphens_before(k),
        forall|j: int|
            0 <= j < without_hyphens(s.take(k)).len() ==> is_lower_hex(
                #[trigger] without_hyphens(s.take(k))[j],
            ),
        all_ascii(s.take(k)),
    decreases k,
{
    if k > 0 {
        lemma_uuid_prefix(s, k - 1);
        assert(s.take(k).drop_last() =~= s.take(k - 1));
        assert(s.take(k).last() == s[k - 1]);
        if !is_uuid_hyphen_position(k - 1) {
            assert(is_lower_hex(s[k - 1]));
        }
    } else {
        assert(s.take(0) =~= Seq::<char>::empty());
    }
}

/// Removing the hyphens of a longer prefix extends what is left of a shorter one.
proof fn lemma_without_hyphens_grows(s: Seq<char>, a: int, b: int)
    requires
        0 <= a <= b <= s.len(),
    ensures
        without_hyphens(s.take(a)).len() <= without_hyphens(s.take(b)).len(),
        forall|j: int|
            0 <= j < without_hyphens(s.take(a)).len() ==> without_hyphens(s.take(b))[j]
                == without_hyphens(s.take(a))[j],
    decreases b - a,
{
    if a < b {
        lemma_without_hyphens_grows(s, a, b - 1);
        assert(s.take(b).drop_last() =~= s.take(b - 1));
    }
}

/// What is left of the first `k + 1` characters ends with character `k` when that is no
/// hyphen.
proof fn lemma_without_hyphens_last(s: Seq<char>, k: int)
    requires
        0 <= k < s.len(),
        s[k] != '-',
    ensures
        without_hyphens(s.take(k + 1)) == without_hyphens(s.take(k)).push(s[k]),
{
    assert(s.take(k + 1).drop_last() =~= s.take(k));
}

/// A fresh device identifier: 17 lowercase hexadecimal digits taken from a random UUID,
/// with the UUID's version digit `4` at index 12 and its variant digit (`8`, `9`, `a` or
/// `b`) at index 16.
pub fn new_yduuid() -> (r: String)
    ensures
        r@.len() == 17,
        forall|i: int| 0 <= i < 17 ==> is_lower_hex(#[trigger] r@[i]),
        r@[12] == '4',
        r@[16] == '8' || r@[16] == '9' || r@[16] == 'a' || r@[16] == 'b',
{
    let text = random_uuid_text();
    proof {
        let s = text@;
        lemma_uuid_prefix(s, 36);
        assert(s.take(36) =~= s);
        lemma_uuid_prefix(s, 14);
        lemma_uuid_prefix(s, 19);
        lemma_without_hyphens_last(s, 14);
        lemma_without_hyphens_last(s, 19);
        lemma_without_hyphens_grows(s, 15, 36);
        lemma_without_hyphens_grows(s, 20, 36);
    }
    yduuid_from(text.as_str())
}

} // verus!
