//! Youdao web text translation: language codes, request parameters and how a
//! decoded reply is judged.  The HTTP exchange and the JSON decoding into
//! [`YoudaoReply`] are made by the caller.
use vstd::prelude::*;
use vstd::string::*;

use crate::error::{AppError, AppResult, ErrorView};
use crate::models::{TextTranslationResult, pair, pairs_view};
use crate::text::{
    chars_of, find_char_in, first_index_of, int_text, lemma_find_from, lemma_first_char_index,
    lowercase,
    push_signed_decimal, same_text, text_of_range, lowercased, ascii_lower, all_ascii,
};

verus! {

/// Youdao's code for one of the application's language codes (`AUTO` when unknown).
pub open spec fn youdao_code(code: Seq<char>) -> Seq<char> {
    if code == "zh-CHS"@ || code == "zh-CN"@ || code == "zh"@ {
        "ZH_CN"@
    } else if code == "zh-CHT"@ || code == "zh-TW"@ {
        "ZH_CHT"@
    } else if code == "en"@ {
        "EN"@
    } else if code == "ja"@ {
        "JA"@
    } else if code == "ko"@ {
        "KO"@
    } else if code == "fr"@ {
        "FR"@
    } else if code == "de"@ {
        "DE"@
    } else if code == "ru"@ {
        "RU"@
    } else if code == "es"@ {
        "ES"@
    } else if code == "pt"@ {
        "PT"@
    } else if code == "it"@ {
        "IT"@
    } else if code == "vi"@ {
        "VI"@
    } else if code == "id"@ {
        "ID"@
    } else if code == "ar"@ {
        "AR"@
    } else if code == "nl"@ {
        "NL"@
    } else if code == "th"@ {
        "TH"@
    } else {
        "AUTO"@
    }
}

/// The `type` parameter of a request from `from` into `to`: `AUTO` when either side is
/// unknown or automatic, else `<FROM>2<TO>`.
pub open spec fn youdao_type(from: Seq<char>, to: Seq<char>) -> Seq<char> {
    if youdao_code(from) == "AUTO"@ || youdao_code(to) == "AUTO"@ {
        "AUTO"@
    } else {
        youdao_code(from) + "2"@ + youdao_code(to)
    }
}

/// The application's code for a language code Youdao reports.
pub open spec fn app_code_from_youdao(code: Seq<char>) -> Seq<char> {
    if code == "ZH_CN"@ {
        "zh-CHS"@
    } else if code == "ZH_CHT"@ {
        "zh-CHT"@
    } else if code == "EN"@ {
        "en"@
    } else if code == "JA"@ {
        "ja"@
    } else if code == "KO"@ {
        "ko"@
    } else if code == "FR"@ {
        "fr"@
    } else if code == "DE"@ {
        "de"@
    } else if code == "RU"@ {
        "ru"@
    } else if code == "ES"@ {
        "es"@
    } else if code == "PT"@ {
        "pt"@
    } else if code == "IT"@ {
        "it"@
    } else {
        lowercased(code)
    }
}

/// The application's own spelling of a code Youdao knows: `zh-CN` and `zh` are
/// `zh-CHS`, `zh-TW` is `zh-CHT`, every other code is kept.
pub open spec fn canonical_app_code(code: Seq<char>) -> Seq<char> {
    if code == "zh-CN"@ || code == "zh"@ {
        "zh-CHS"@
    } else if code == "zh-TW"@ {
        "zh-CHT"@
    } else {
        code
    }
}

/// The application code of each name Youdao gives a language.
proof fn lemma_app_codes_of_youdao_names()
    ensures
        app_code_from_youdao("ZH_CN"@) == "zh-CHS"@,
        app_code_from_youdao("ZH_CHT"@) == "zh-CHT"@,
        app_code_from_youdao("EN"@) == "en"@,
        app_code_from_youdao("JA"@) == "ja"@,
        app_code_from_youdao("KO"@) == "ko"@,
        app_code_from_youdao("FR"@) == "fr"@,
        app_code_from_youdao("DE"@) == "de"@,
        app_code_from_youdao("RU"@) == "ru"@,
        app_code_from_youdao("ES"@) == "es"@,
        app_code_from_youdao("PT"@) == "pt"@,
        app_code_from_youdao("IT"@) == "it"@,
        app_code_from_youdao("VI"@) == "vi"@,
        app_code_from_youdao("ID"@) == "id"@,
        app_code_from_youdao("AR"@) == "ar"@,
        app_code_from_youdao("NL"@) == "nl"@,
        app_code_from_youdao("TH"@) == "th"@,
{
    reveal_strlit("ZH_CN");
    reveal_strlit("ZH_CHT");
    reveal_strlit("EN");
    reveal_strlit("JA");
    reveal_strlit("KO");
    reveal_strlit("FR");
    reveal_strlit("DE");
    reveal_strlit("RU");
    reveal_strlit("ES");
    reveal_strlit("PT");
    reveal_strlit("IT");
    reveal_strlit("VI");
    reveal_strlit("ID");
    reveal_strlit("AR");
    reveal_strlit("NL");
    reveal_strlit("TH");
    assert(app_code_from_youdao("ZH_CN"@) == "zh-CHS"@) by {
        
    }
    assert(app_code_from_youdao("ZH_CHT"@) == "zh-CHT"@) by {
        assert("ZH_CHT"@.len() != "ZH_CN"@.len());
    }
    assert(app_code_from_youdao("EN"@) == "en"@) by {
        assert("EN"@.len() != "ZH_CN"@.len());
        assert("EN"@.len() != "ZH_CHT"@.len());
    }
    assert(app_code_from_youdao("JA"@) == "ja"@) by {
        assert("JA"@.len() != "ZH_CN"@.len());
        assert("JA"@.len() != "ZH_CHT"@.len());
        assert("JA"@[0] != "EN"@[0]);
    }
    assert(app_code_from_youdao("KO"@) == "ko"@) by {
        assert("KO"@.len() != "ZH_CN"@.len());
        assert("KO"@.len() != "ZH_CHT"@.len());
        assert("KO"@[0] != "EN"@[0]);
        assert("KO"@[0] != "JA"@[0]);
    }
    assert(app_code_from_youdao("FR"@) == "fr"@) by {
        assert("FR"@.len() != "ZH_CN"@.len());
        assert("FR"@.len() != "ZH_CHT"@.len());
        assert("FR"@[0] != "EN"@[0]);
        assert("FR"@[0] != "JA"@[0]);
        assert("FR"@[0] != "KO"@[0]);
    }
    assert(app_code_from_youdao("DE"@) == "de"@) by {
        assert("DE"@.len() != "ZH_CN"@.len());
        assert("DE"@.len() != "ZH_CHT"@.len());
        assert("DE"@[0] != "EN"@[0]);
        assert("DE"@[0] != "JA"@[0]);
        assert("DE"@[0] != "KO"@[0]);
        assert("DE"@[0] != "FR"@[0]);
    }
    assert(app_code_from_youdao("RU"@) == "ru"@) by {
        assert("RU"@.len() != "ZH_CN"@.len());
        assert("RU"@.len() != "ZH_CHT"@.len());
        assert("RU"@[0] != "EN"@[0]);
        assert("RU"@[0] != "JA"@[0]);
        assert("RU"@[0] != "KO"@[0]);
        assert("RU"@[0] != "FR"@[0]);
        assert("RU"@[0] != "DE"@[0]);
    }
    assert(app_code_from_youdao("ES"@) == "es"@) by {
        assert("ES"@.len() != "ZH_CN"@.len());
        assert("ES"@.len() != "ZH_CHT"@.len());
        assert("ES"@[1] != "EN"@[1]);
        assert("ES"@[0] != "JA"@[0]);
        assert("ES"@[0] != "KO"@[0]);
        assert("ES"@[0] != "FR"@[0]);
        assert("ES"@[0] != "DE"@[0]);
        assert("ES"@[0] != "RU"@[0]);
    }
    assert(app_code_from_youdao("PT"@) == "pt"@) by {
        assert("PT"@.len() != "ZH_CN"@.len());
        assert("PT"@.len() != "ZH_CHT"@.len());
        assert("PT"@[0] != "EN"@[0]);
        assert("PT"@[0] != "JA"@[0]);
        assert("PT"@[0] != "KO"@[0]);
        assert("PT"@[0] != "FR"@[0]);
        assert("PT"@[0] != "DE"@[0]);
        assert("PT"@[0] != "RU"@[0]);
        assert("PT"@[0] != "ES"@[0]);
    }
    assert(app_code_from_youdao("IT"@) == "it"@) by {
        assert("IT"@.len() != "ZH_CN"@.len());
        assert("IT"@.len() != "ZH_CHT"@.len());
        assert("IT"@[0] != "EN"@[0]);
        assert("IT"@[0] != "JA"@[0]);
        assert("IT"@[0] != "KO"@[0]);
        assert("IT"@[0] != "FR"@[0]);
        assert("IT"@[0] != "DE"@[0]);
        assert("IT"@[0] != "RU"@[0]);
        assert("IT"@[0] != "ES"@[0]);
        assert("IT"@[0] != "PT"@[0]);
    }
    assert(app_code_from_youdao("VI"@) == "vi"@) by {
        reveal_strlit("vi");
        assert(all_ascii("VI"@));
        assert(ascii_lower("VI"@) =~= "vi"@);
        assert("VI"@.len() != "ZH_CN"@.len());
        assert("VI"@.len() != "ZH_CHT"@.len());
        assert("VI"@[0] != "EN"@[0]);
        assert("VI"@[0] != "JA"@[0]);
        assert("VI"@[0] != "KO"@[0]);
        assert("VI"@[0] != "FR"@[0]);
        assert("VI"@[0] != "DE"@[0]);
        assert("VI"@[0] != "RU"@[0]);
        assert("VI"@[0] != "ES"@[0]);
        assert("VI"@[0] != "PT"@[0]);
        assert("VI"@[0] != "IT"@[0]);
    }
    assert(app_code_from_youdao("ID"@) == "id"@) by {
        reveal_strlit("id");
        assert(all_ascii("ID"@));
        assert(ascii_lower("ID"@) =~= "id"@);
        assert("ID"@.len() != "ZH_CN"@.len());
        assert("ID"@.len() != "ZH_CHT"@.len());
        assert("ID"@[0] != "EN"@[0]);
        assert("ID"@[0] != "JA"@[0]);
        assert("ID"@[0] != "KO"@[0]);
        assert("ID"@[0] != "FR"@[0]);
        assert("ID"@[0] != "DE"@[0]);
        assert("ID"@[0] != "RU"@[0]);
        assert("ID"@[0] != "ES"@[0]);
        assert("ID"@[0] != "PT"@[0]);
        assert("ID"@[1] != "IT"@[1]);
    }
    assert(app_code_from_youdao("AR"@) == "ar"@) by {
        reveal_strlit("ar");
        assert(all_ascii("AR"@));
        assert(ascii_lower("AR"@) =~= "ar"@);
        assert("AR"@.len() != "ZH_CN"@.len());
        assert("AR"@.len() != "ZH_CHT"@.len());
        assert("AR"@[0] != "EN"@[0]);
        assert("AR"@[0] != "JA"@[0]);
        assert("AR"@[0] != "KO"@[0]);
        assert("AR"@[0] != "FR"@[0]);
        assert("AR"@[0] != "DE"@[0]);
        assert("AR"@[0] != "RU"@[0]);
        assert("AR"@[0] != "ES"@[0]);
        assert("AR"@[0] != "PT"@[0]);
        assert("AR"@[0] != "IT"@[0]);
    }
    assert(app_code_from_youdao("NL"@) == "nl"@) by {
        reveal_strlit("nl");
        assert(all_ascii("NL"@));
        assert(ascii_lower("NL"@) =~= "nl"@);
        assert("NL"@.len() != "ZH_CN"@.len());
        assert("NL"@.len() != "ZH_CHT"@.len());
        assert("NL"@[0] != "EN"@[0]);
        assert("NL"@[0] != "JA"@[0]);
        assert("NL"@[0] != "KO"@[0]);
        assert("NL"@[0] != "FR"@[0]);
        assert("NL"@[0] != "DE"@[0]);
        assert("NL"@[0] != "RU"@[0]);
        assert("NL"@[0] != "ES"@[0]);
        assert("NL"@[0] != "PT"@[0]);
        assert("NL"@[0] != "IT"@[0]);
    }
    assert(app_code_from_youdao("TH"@) == "th"@) by {
        reveal_strlit("th");
        assert(all_ascii("TH"@));
        assert(ascii_lower("TH"@) =~= "th"@);
        assert("TH"@.len() != "ZH_CN"@.len());
        assert("TH"@.len() != "ZH_CHT"@.len());
        assert("TH"@[0] != "EN"@[0]);
        assert("TH"@[0] != "JA"@[0]);
        assert("TH"@[0] != "KO"@[0]);
        assert("TH"@[0] != "FR"@[0]);
        assert("TH"@[0] != "DE"@[0]);
        assert("TH"@[0] != "RU"@[0]);
        assert("TH"@[0] != "ES"@[0]);
        assert("TH"@[0] != "PT"@[0]);
        assert("TH"@[0] != "IT"@[0]);
    }
}

/// Mapping a code that Youdao knows to Youdao's name and back gives the application's
/// own spelling of it.
pub proof fn law_youdao_codes_round_trip(code: Seq<char>)
    requires
        youdao_code(code) != "AUTO"@,
    ensures
        app_code_from_youdao(youdao_code(code)) == canonical_app_code(code),
{
    lemma_app_codes_of_youdao_names();
    reveal_strlit("zh-CHS");
    reveal_strlit("zh-CN");
    reveal_strlit("zh");
    reveal_strlit("zh-CHT");
    reveal_strlit("zh-TW");
    reveal_strlit("en");
    reveal_strlit("ja");
    reveal_strlit("ko");
    reveal_strlit("fr");
    reveal_strlit("de");
    reveal_strlit("ru");
    reveal_strlit("es");
    reveal_strlit("pt");
    reveal_strlit("it");
    reveal_strlit("vi");
    reveal_strlit("id");
    reveal_strlit("ar");
    reveal_strlit("nl");
    reveal_strlit("th");
    reveal_strlit("AUTO");
    assert(
        "zh"@ != "vi"@
            && "zh"@ != "id"@
            && "zh"@ != "ar"@
            && "zh"@ != "nl"@
            && "zh"@ != "th"@
    ) by {
        assert("zh"@[0] != "vi"@[0]);
        assert("zh"@[0] != "id"@[0]);
        assert("zh"@[0] != "ar"@[0]);
        assert("zh"@[0] != "nl"@[0]);
        assert("zh"@[0] != "th"@[0]);
    }
    assert(
        "en"@ != "vi"@
            && "en"@ != "id"@
            && "en"@ != "ar"@
            && "en"@ != "nl"@
            && "en"@ != "th"@
    ) by {
        assert("en"@[0] != "vi"@[0]);
        assert("en"@[0] != "id"@[0]);
        assert("en"@[0] != "ar"@[0]);
        assert("en"@[0] != "nl"@[0]);
        assert("en"@[0] != "th"@[0]);
    }
    assert(
        "ja"@ != "vi"@
            && "ja"@ != "id"@
            && "ja"@ != "ar"@
            && "ja"@ != "nl"@
            && "ja"@ != "th"@
    ) by {
        assert("ja"@[0] != "vi"@[0]);
        assert("ja"@[0] != "id"@[0]);
        assert("ja"@[0] != "ar"@[0]);
        assert("ja"@[0] != "nl"@[0]);
        assert("ja"@[0] != "th"@[0]);
    }
    assert(
        "ko"@ != "vi"@
            && "ko"@ != "id"@
            && "ko"@ != "ar"@
            && "ko"@ != "nl"@
            && "ko"@ != "th"@
    ) by {
        assert("ko"@[0] != "vi"@[0]);
        assert("ko"@[0] != "id"@[0]);
        assert("ko"@[0] != "ar"@[0]);
        assert("ko"@[0] != "nl"@[0]);
        assert("ko"@[0] != "th"@[0]);
    }
    assert(
        "fr"@ != "vi"@
            && "fr"@ != "id"@
            && "fr"@ != "ar"@
            && "fr"@ != "nl"@
            && "fr"@ != "th"@
    ) by {
        assert("fr"@[0] != "vi"@[0]);
        assert("fr"@[0] != "id"@[0]);
        assert("fr"@[0] != "ar"@[0]);
        assert("fr"@[0] != "nl"@[0]);
        assert("fr"@[0] != "th"@[0]);
    }
    assert(
        "de"@ != "vi"@
            && "de"@ != "id"@
            && "de"@ != "ar"@
            && "de"@ != "nl"@
            && "de"@ != "th"@
    ) by {
        assert("de"@[0] != "vi"@[0]);
        assert("de"@[0] != "id"@[0]);
        assert("de"@[0] != "ar"@[0]);
        assert("de"@[0] != "nl"@[0]);
        assert("de"@[0] != "th"@[0]);
    }
    assert(
        "ru"@ != "vi"@
            && "ru"@ != "id"@
            && "ru"@ != "ar"@
            && "ru"@ != "nl"@
            && "ru"@ != "th"@
    ) by {
        assert("ru"@[0] != "vi"@[0]);
        assert("ru"@[0] != "id"@[0]);
        assert("ru"@[0] != "ar"@[0]);
        assert("ru"@[0] != "nl"@[0]);
        assert("ru"@[0] != "th"@[0]);
    }
    assert(
        "es"@ != "vi"@
            && "es"@ != "id"@
            && "es"@ != "ar"@
            && "es"@ != "nl"@
            && "es"@ != "th"@
    ) by {
        assert("es"@[0] != "vi"@[0]);
        assert("es"@[0] != "id"@[0]);
        assert("es"@[0] != "ar"@[0]);
        assert("es"@[0] != "nl"@[0]);
        assert("es"@[0] != "th"@[0]);
    }
    assert(
        "pt"@ != "vi"@
            && "pt"@ != "id"@
            && "pt"@ != "ar"@
            && "pt"@ != "nl"@
            && "pt"@ != "th"@
    ) by {
        assert("pt"@[0] != "vi"@[0]);
        assert("pt"@[0] != "id"@[0]);
        assert("pt"@[0] != "ar"@[0]);
        assert("pt"@[0] != "nl"@[0]);
        assert("pt"@[0] != "th"@[0]);
    }
    assert(
        "it"@ != "vi"@
            && "it"@ != "id"@
            && "it"@ != "ar"@
            && "it"@ != "nl"@
            && "it"@ != "th"@
    ) by {
        assert("it"@[0] != "vi"@[0]);
        assert("it"@[1] != "id"@[1]);
        assert("it"@[0] != "ar"@[0]);
        assert("it"@[0] != "nl"@[0]);
        assert("it"@[0] != "th"@[0]);
    }
    assert(
        "vi"@ != "id"@
            && "vi"@ != "ar"@
            && "vi"@ != "nl"@
            && "vi"@ != "th"@
    ) by {
        assert("vi"@[0] != "id"@[0]);
        assert("vi"@[0] != "ar"@[0]);
        assert("vi"@[0] != "nl"@[0]);
        assert("vi"@[0] != "th"@[0]);
    }
    assert(
        "id"@ != "vi"@
            && "id"@ != "ar"@
            && "id"@ != "nl"@
            && "id"@ != "th"@
    ) by {
        assert("id"@[0] != "vi"@[0]);
        assert("id"@[0] != "ar"@[0]);
        assert("id"@[0] != "nl"@[0]);
        assert("id"@[0] != "th"@[0]);
    }
    assert(
        "ar"@ != "vi"@
            && "ar"@ != "id"@
            && "ar"@ != "nl"@
            && "ar"@ != "th"@
    ) by {
        assert("ar"@[0] != "vi"@[0]);
        assert("ar"@[0] != "id"@[0]);
        assert("ar"@[0] != "nl"@[0]);
        assert("ar"@[0] != "th"@[0]);
    }
    assert(
        "nl"@ != "vi"@
            && "nl"@ != "id"@
            && "nl"@ != "ar"@
            && "nl"@ != "th"@
    ) by {
        assert("nl"@[0] != "vi"@[0]);
        assert("nl"@[0] != "id"@[0]);
        assert("nl"@[0] != "ar"@[0]);
        assert("nl"@[0] != "th"@[0]);
    }
    assert(
        "th"@ != "vi"@
            && "th"@ != "id"@
            && "th"@ != "ar"@
            && "th"@ != "nl"@
    ) by {
        assert("th"@[0] != "vi"@[0]);
        assert("th"@[0] != "id"@[0]);
        assert("th"@[0] != "ar"@[0]);
        assert("th"@[0] != "nl"@[0]);
    }
}

/// The language codes the application offers for text translation.
pub open spec fn offered_code(code: Seq<char>) -> bool {
    ||| code == "zh-CHS"@
    ||| code == "zh-CN"@
    ||| code == "zh"@
    ||| code == "zh-CHT"@
    ||| code == "zh-TW"@
    ||| code == "en"@
    ||| code == "ja"@
    ||| code == "ko"@
    ||| code == "fr"@
    ||| code == "de"@
    ||| code == "ru"@
    ||| code == "es"@
    ||| code == "pt"@
    ||| code == "it"@
    ||| code == "vi"@
    ||| code == "id"@
    ||| code == "ar"@
    ||| code == "nl"@
    ||| code == "th"@
}

/// Youdao's name for each offered code (a helper for the laws below).
proof fn lemma_youdao_names_of_offered_codes()
    ensures
        youdao_code("zh-CHS"@) == "ZH_CN"@,
        youdao_code("zh-CN"@) == "ZH_CN"@,
        youdao_code("zh"@) == "ZH_CN"@,
        youdao_code("zh-CHT"@) == "ZH_CHT"@,
        youdao_code("zh-TW"@) == "ZH_CHT"@,
        youdao_code("en"@) == "EN"@,
        youdao_code("ja"@) == "JA"@,
        youdao_code("ko"@) == "KO"@,
        youdao_code("fr"@) == "FR"@,
        youdao_code("de"@) == "DE"@,
        youdao_code("ru"@) == "RU"@,
        youdao_code("es"@) == "ES"@,
        youdao_code("pt"@) == "PT"@,
        youdao_code("it"@) == "IT"@,
        youdao_code("vi"@) == "VI"@,
        youdao_code("id"@) == "ID"@,
        youdao_code("ar"@) == "AR"@,
        youdao_code("nl"@) == "NL"@,
        youdao_code("th"@) == "TH"@,
{
    reveal_strlit("zh-CHS");
    reveal_strlit("zh-CN");
    reveal_strlit("zh");
    reveal_strlit("zh-CHT");
    reveal_strlit("zh-TW");
    reveal_strlit("en");
    reveal_strlit("ja");
    reveal_strlit("ko");
    reveal_strlit("fr");
    reveal_strlit("de");
    reveal_strlit("ru");
    reveal_strlit("es");
    reveal_strlit("pt");
    reveal_strlit("it");
    reveal_strlit("vi");
    reveal_strlit("id");
    reveal_strlit("ar");
    reveal_strlit("nl");
    reveal_strlit("th");
    assert(youdao_code("zh-CHS"@) == "ZH_CN"@) by {
    }
    assert(youdao_code("zh-CN"@) == "ZH_CN"@) by {
        assert("zh-CN"@.len() != "zh-CHS"@.len());
    }
    assert(youdao_code("zh"@) == "ZH_CN"@) by {
        assert("zh"@.len() != "zh-CHS"@.len());
        assert("zh"@.len() != "zh-CN"@.len());
    }
    assert(youdao_code("zh-CHT"@) == "ZH_CHT"@) by {
        assert("zh-CHT"@[5] != "zh-CHS"@[5]);
        assert("zh-CHT"@.len() != "zh-CN"@.len());
        assert("zh-CHT"@.len() != "zh"@.len());
    }
    assert(youdao_code("zh-TW"@) == "ZH_CHT"@) by {
        assert("zh-TW"@.len() != "zh-CHS"@.len());
        assert("zh-TW"@[3] != "zh-CN"@[3]);
        assert("zh-TW"@.len() != "zh"@.len());
        assert("zh-TW"@.len() != "zh-CHT"@.len());
    }
    assert(youdao_code("en"@) == "EN"@) by {
        assert("en"@.len() != "zh-CHS"@.len());
        assert("en"@.len() != "zh-CN"@.len());
        assert("en"@[0] != "zh"@[0]);
        assert("en"@.len() != "zh-CHT"@.len());
        assert("en"@.len() != "zh-TW"@.len());
    }
    assert(youdao_code("ja"@) == "JA"@) by {
        assert("ja"@.len() != "zh-CHS"@.len());
        assert("ja"@.len() != "zh-CN"@.len());
        assert("ja"@[0] != "zh"@[0]);
        assert("ja"@.len() != "zh-CHT"@.len());
        assert("ja"@.len() != "zh-TW"@.len());
        assert("ja"@[0] != "en"@[0]);
    }
    assert(youdao_code("ko"@) == "KO"@) by {
        assert("ko"@.len() != "zh-CHS"@.len());
        assert("ko"@.len() != "zh-CN"@.len());
        assert("ko"@[0] != "zh"@[0]);
        assert("ko"@.len() != "zh-CHT"@.len());
        assert("ko"@.len() != "zh-TW"@.len());
        assert("ko"@[0] != "en"@[0]);
        assert("ko"@[0] != "ja"@[0]);
    }
    assert(youdao_code("fr"@) == "FR"@) by {
        assert("fr"@.len() != "zh-CHS"@.len());
        assert("fr"@.len() != "zh-CN"@.len());
        assert("fr"@[0] != "zh"@[0]);
        assert("fr"@.len() != "zh-CHT"@.len());
        assert("fr"@.len() != "zh-TW"@.len());
        assert("fr"@[0] != "en"@[0]);
        assert("fr"@[0] != "ja"@[0]);
        assert("fr"@[0] != "ko"@[0]);
    }
    assert(youdao_code("de"@) == "DE"@) by {
        assert("de"@.len() != "zh-CHS"@.len());
        assert("de"@.len() != "zh-CN"@.len());
        assert("de"@[0] != "zh"@[0]);
        assert("de"@.len() != "zh-CHT"@.len());
        assert("de"@.len() != "zh-TW"@.len());
        assert("de"@[0] != "en"@[0]);
        assert("de"@[0] != "ja"@[0]);
        assert("de"@[0] != "ko"@[0]);
        assert("de"@[0] != "fr"@[0]);
    }
    assert(youdao_code("ru"@) == "RU"@) by {
        assert("ru"@.len() != "zh-CHS"@.len());
        assert("ru"@.len() != "zh-CN"@.len());
        assert("ru"@[0] != "zh"@[0]);
        assert("ru"@.len() != "zh-CHT"@.len());
        assert("ru"@.len() != "zh-TW"@.len());
        assert("ru"@[0] != "en"@[0]);
        assert("ru"@[0] != "ja"@[0]);
        assert("ru"@[0] != "ko"@[0]);
        assert("ru"@[0] != "fr"@[0]);
        assert("ru"@[0] != "de"@[0]);
    }
    assert(youdao_code("es"@) == "ES"@) by {
        assert("es"@.len() != "zh-CHS"@.len());
        assert("es"@.len() != "zh-CN"@.len());
        assert("es"@[0] != "zh"@[0]);
        assert("es"@.len() != "zh-CHT"@.len());
        assert("es"@.len() != "zh-TW"@.len());
        assert("es"@[1] != "en"@[1]);
        assert("es"@[0] != "ja"@[0]);
        assert("es"@[0] != "ko"@[0]);
        assert("es"@[0] != "fr"@[0]);
        assert("es"@[0] != "de"@[0]);
        assert("es"@[0] != "ru"@[0]);
    }
    assert(youdao_code("pt"@) == "PT"@) by {
        assert("pt"@.len() != "zh-CHS"@.len());
        assert("pt"@.len() != "zh-CN"@.len());
        assert("pt"@[0] != "zh"@[0]);
        assert("pt"@.len() != "zh-CHT"@.len());
        assert("pt"@.len() != "zh-TW"@.len());
        assert("pt"@[0] != "en"@[0]);
        assert("pt"@[0] != "ja"@[0]);
        assert("pt"@[0] != "ko"@[0]);
        assert("pt"@[0] != "fr"@[0]);
        assert("pt"@[0] != "de"@[0]);
        assert("pt"@[0] != "ru"@[0]);
        assert("pt"@[0] != "es"@[0]);
    }
    assert(youdao_code("it"@) == "IT"@) by {
        assert("it"@.len() != "zh-CHS"@.len());
        assert("it"@.len() != "zh-CN"@.len());
        assert("it"@[0] != "zh"@[0]);
        assert("it"@.len() != "zh-CHT"@.len());
        assert("it"@.len() != "zh-TW"@.len());
        assert("it"@[0] != "en"@[0]);
        assert("it"@[0] != "ja"@[0]);
        assert("it"@[0] != "ko"@[0]);
        assert("it"@[0] != "fr"@[0]);
        assert("it"@[0] != "de"@[0]);
        assert("it"@[0] != "ru"@[0]);
        assert("it"@[0] != "es"@[0]);
        assert("it"@[0] != "pt"@[0]);
    }
    assert(youdao_code("vi"@) == "VI"@) by {
        assert("vi"@.len() != "zh-CHS"@.len());
        assert("vi"@.len() != "zh-CN"@.len());
        assert("vi"@[0] != "zh"@[0]);
        assert("vi"@.len() != "zh-CHT"@.len());
        assert("vi"@.len() != "zh-TW"@.len());
        assert("vi"@[0] != "en"@[0]);
        assert("vi"@[0] != "ja"@[0]);
        assert("vi"@[0] != "ko"@[0]);
        assert("vi"@[0] != "fr"@[0]);
        assert("vi"@[0] != "de"@[0]);
        assert("vi"@[0] != "ru"@[0]);
        assert("vi"@[0] != "es"@[0]);
        assert("vi"@[0] != "pt"@[0]);
        assert("vi"@[0] != "it"@[0]);
    }
    assert(youdao_code("id"@) == "ID"@) by {
        assert("id"@.len() != "zh-CHS"@.len());
        assert("id"@.len() != "zh-CN"@.len());
        assert("id"@[0] != "zh"@[0]);
        assert("id"@.len() != "zh-CHT"@.len());
        assert("id"@.len() != "zh-TW"@.len());
        assert("id"@[0] != "en"@[0]);
        assert("id"@[0] != "ja"@[0]);
        assert("id"@[0] != "ko"@[0]);
        assert("id"@[0] != "fr"@[0]);
        assert("id"@[0] != "de"@[0]);
        assert("id"@[0] != "ru"@[0]);
        assert("id"@[0] != "es"@[0]);
        assert("id"@[0] != "pt"@[0]);
        assert("id"@[1] != "it"@[1]);
        assert("id"@[0] != "vi"@[0]);
    }
    assert(youdao_code("ar"@) == "AR"@) by {
        assert("ar"@.len() != "zh-CHS"@.len());
        assert("ar"@.len() != "zh-CN"@.len());
        assert("ar"@[0] != "zh"@[0]);
        assert("ar"@.len() != "zh-CHT"@.len());
        assert("ar"@.len() != "zh-TW"@.len());
        assert("ar"@[0] != "en"@[0]);
        assert("ar"@[0] != "ja"@[0]);
        assert("ar"@[0] != "ko"@[0]);
        assert("ar"@[0] != "fr"@[0]);
        assert("ar"@[0] != "de"@[0]);
        assert("ar"@[0] != "ru"@[0]);
        assert("ar"@[0] != "es"@[0]);
        assert("ar"@[0] != "pt"@[0]);
        assert("ar"@[0] != "it"@[0]);
        assert("ar"@[0] != "vi"@[0]);
        assert("ar"@[0] != "id"@[0]);
    }
    assert(youdao_code("nl"@) == "NL"@) by {
        assert("nl"@.len() != "zh-CHS"@.len());
        assert("nl"@.len() != "zh-CN"@.len());
        assert("nl"@[0] != "zh"@[0]);
        assert("nl"@.len() != "zh-CHT"@.len());
        assert("nl"@.len() != "zh-TW"@.len());
        assert("nl"@[0] != "en"@[0]);
        assert("nl"@[0] != "ja"@[0]);
        assert("nl"@[0] != "ko"@[0]);
        assert("nl"@[0] != "fr"@[0]);
        assert("nl"@[0] != "de"@[0]);
        assert("nl"@[0] != "ru"@[0]);
        assert("nl"@[0] != "es"@[0]);
        assert("nl"@[0] != "pt"@[0]);
        assert("nl"@[0] != "it"@[0]);
        assert("nl"@[0] != "vi"@[0]);
        assert("nl"@[0] != "id"@[0]);
        assert("nl"@[0] != "ar"@[0]);
    }
    assert(youdao_code("th"@) == "TH"@) by {
        assert("th"@.len() != "zh-CHS"@.len());
        assert("th"@.len() != "zh-CN"@.len());
        assert("th"@[0] != "zh"@[0]);
        assert("th"@.len() != "zh-CHT"@.len());
        assert("th"@.len() != "zh-TW"@.len());
        assert("th"@[0] != "en"@[0]);
        assert("th"@[0] != "ja"@[0]);
        assert("th"@[0] != "ko"@[0]);
        assert("th"@[0] != "fr"@[0]);
        assert("th"@[0] != "de"@[0]);
        assert("th"@[0] != "ru"@[0]);
        assert("th"@[0] != "es"@[0]);
        assert("th"@[0] != "pt"@[0]);
        assert("th"@[0] != "it"@[0]);
        assert("th"@[0] != "vi"@[0]);
        assert("th"@[0] != "id"@[0]);
        assert("th"@[0] != "ar"@[0]);
        assert("th"@[0] != "nl"@[0]);
    }
}

/// No offered code is sent to Youdao as `AUTO`.
proof fn lemma_offered_code_not_auto(code: Seq<char>)
    requires
        offered_code(code),
    ensures
        youdao_code(code) != "AUTO"@,
{
    lemma_youdao_names_of_offered_codes();
    reveal_strlit("AUTO");
    if code == "zh-CHS"@ {
        reveal_strlit("ZH_CN");
        assert("ZH_CN"@.len() != "AUTO"@.len());
    }     else if code == "zh-CN"@ {
        reveal_strlit("ZH_CN");
        assert("ZH_CN"@.len() != "AUTO"@.len());
    }     else if code == "zh"@ {
        reveal_strlit("ZH_CN");
        assert("ZH_CN"@.len() != "AUTO"@.len());
    }     else if code == "zh-CHT"@ {
        reveal_strlit("ZH_CHT");
        assert("ZH_CHT"@.len() != "AUTO"@.len());
    }     else if code == "zh-TW"@ {
        reveal_strlit("ZH_CHT");
        assert("ZH_CHT"@.len() != "AUTO"@.len());
    }     else if code == "en"@ {
        reveal_strlit("EN");
        assert("EN"@.len() != "AUTO"@.len());
    }     else if code == "ja"@ {
        reveal_strlit("JA");
        assert("JA"@.len() != "AUTO"@.len());
    }     else if code == "ko"@ {
        reveal_strlit("KO");
        assert("KO"@.len() != "AUTO"@.len());
    }     else if code == "fr"@ {
        reveal_strlit("FR");
        assert("FR"@.len() != "AUTO"@.len());
    }     else if code == "de"@ {
        reveal_strlit("DE");
        assert("DE"@.len() != "AUTO"@.len());
    }     else if code == "ru"@ {
        reveal_strlit("RU");
        assert("RU"@.len() != "AUTO"@.len());
    }     else if code == "es"@ {
        reveal_strlit("ES");
        assert("ES"@.len() != "AUTO"@.len());
    }     else if code == "pt"@ {
        reveal_strlit("PT");
        assert("PT"@.len() != "AUTO"@.len());
    }     else if code == "it"@ {
        reveal_strlit("IT");
        assert("IT"@.len() != "AUTO"@.len());
    }     else if code == "vi"@ {
        reveal_strlit("VI");
        assert("VI"@.len() != "AUTO"@.len());
    }     else if code == "id"@ {
        reveal_strlit("ID");
        assert("ID"@.len() != "AUTO"@.len());
    }     else if code == "ar"@ {
        reveal_strlit("AR");
        assert("AR"@.len() != "AUTO"@.len());
    }     else if code == "nl"@ {
        reveal_strlit("NL");
        assert("NL"@.len() != "AUTO"@.len());
    }     else if code == "th"@ {
        reveal_strlit("TH");
        assert("TH"@.len() != "AUTO"@.len());
    }
}

/// Every language the application offers has a Youdao name: a request between two of
/// them names both languages (`<FROM>2<TO>`) instead of falling back to `AUTO`, and
/// each name leads back to the application's own spelling of the code.
pub proof fn law_offered_codes_have_youdao_names(from: Seq<char>, to: Seq<char>)
    requires
        offered_code(from),
        offered_code(to),
    ensures
        youdao_code(from) != "AUTO"@,
        youdao_code(to) != "AUTO"@,
        youdao_type(from, to) == youdao_code(from) + "2"@ + youdao_code(to),
        app_code_from_youdao(youdao_code(from)) == canonical_app_code(from),
{
    lemma_offered_code_not_auto(from);
    lemma_offered_code_not_auto(to);
    law_youdao_codes_round_trip(from);
}

/// Maps an application language code to Youdao's.
pub fn normalize_to_youdao(code: &str) -> (r: &'static str)
    ensures
        r@ == youdao_code(code@),
{
    if same_text(code, "zh-CHS") || same_text(code, "zh-CN") || same_text(code, "zh") {
        "ZH_CN"
    } else if same_text(code, "zh-CHT") || same_text(code, "zh-TW") {
        "ZH_CHT"
    } else if same_text(code, "en") {
        "EN"
    } else if same_text(code, "ja") {
        "JA"
    } else if same_text(code, "ko") {
        "KO"
    } else if same_text(code, "fr") {
        "FR"
    } else if same_text(code, "de") {
        "DE"
    } else if same_text(code, "ru") {
        "RU"
    } else if same_text(code, "es") {
        "ES"
    } else if same_text(code, "pt") {
        "PT"
    } else if same_text(code, "it") {
        "IT"
    } else if same_text(code, "vi") {
        "VI"
    } else if same_text(code, "id") {
        "ID"
    } else if same_text(code, "ar") {
        "AR"
    } else if same_text(code, "nl") {
        "NL"
    } else if same_text(code, "th") {
        "TH"
    } else {
        "AUTO"
    }
}

/// The `type` parameter of a request from `from` into `to`.
pub fn youdao_type_code(from: &str, to: &str) -> (r: String)
    ensures
        r@ == youdao_type(from@, to@),
{
    let from_code = normalize_to_youdao(from);
    let to_code = normalize_to_youdao(to);
    if same_text(from_code, "AUTO") || same_text(to_code, "AUTO") {
        "AUTO".to_owned()
    } else {
        let mut r = from_code.to_owned();
        r.append("2");
        r.append(to_code);
        r
    }
}

/// Maps a language code Youdao reports back to the application's code.
pub fn normalize_youdao_lang(code: &str) -> (r: String)
    ensures
        r@ == app_code_from_youdao(code@),
{
    if same_text(code, "ZH_CN") {
        "zh-CHS".to_owned()
    } else if same_text(code, "ZH_CHT") {
        "zh-CHT".to_owned()
    } else if same_text(code, "EN") {
        "en".to_owned()
    } else if same_text(code, "JA") {
        "ja".to_owned()
    } else if same_text(code, "KO") {
        "ko".to_owned()
    } else if same_text(code, "FR") {
        "fr".to_owned()
    } else if same_text(code, "DE") {
        "de".to_owned()
    } else if same_text(code, "RU") {
        "ru".to_owned()
    } else if same_text(code, "ES") {
        "es".to_owned()
    } else if same_text(code, "PT") {
        "pt".to_owned()
    } else if same_text(code, "IT") {
        "it".to_owned()
    } else {
        lowercase(code)
    }
}

/// The query string of a request for `text`, from language `from` into `to`.
pub fn youdao_query_params(text: &str, from: &str, to: &str) -> (r: Vec<(String, String)>)
    ensures
        pairs_view(r@) == seq![("doctype"@, "json"@), ("type"@, youdao_type(from@, to@)), ("i"@, text@)],
{
    let typ = youdao_type_code(from, to);
    let mut r: Vec<(String, String)> = Vec::new();
    r.push(pair("doctype", "json"));
    r.push(pair("type", typ.as_str()));
    r.push(pair("i", text));
    assert(pairs_view(r@) =~= seq![
        ("doctype"@, "json"@),
        ("type"@, youdao_type(from@, to@)),
        ("i"@, text@),
    ]);
    r
}

/// One translated segment of a Youdao reply.
#[derive(Debug, Clone)]
pub struct YoudaoSegment {
    pub tgt: String,
    pub src: String,
}

/// A decoded Youdao reply.
#[derive(Debug, Clone)]
pub struct YoudaoReply {
    /// The `type` member: the language pair Youdao used, such as `EN2ZH_CN`.
    pub type_code: String,
    /// The `errorCode` member (0 when absent).
    pub error_code: i64,
    /// The `translateResult` member: rows of segments.
    pub translate_result: Vec<Vec<YoudaoSegment>>,
}

/// The translated text of a row of segments.
pub open spec fn segments_text(segs: Seq<YoudaoSegment>) -> Seq<char>
    decreases segs.len(),
{
    if segs.len() == 0 {
        seq![]
    } else {
        segments_text(segs.drop_last()) + segs.last().tgt@
    }
}

/// The translated text of all rows, in order.
pub open spec fn rows_text(rows: Seq<Vec<YoudaoSegment>>) -> Seq<char>
    decreases rows.len(),
{
    if rows.len() == 0 {
        seq![]
    } else {
        rows_text(rows.drop_last()) + segments_text(rows.last()@)
    }
}

/// The source language a reply's `type` names: what comes before its first `2`.
pub open spec fn type_source(t: Seq<char>) -> Seq<char> {
    match first_index_of(t, seq!['2']) {
        Some(k) => t.take(k),
        None => t,
    }
}

/// How a decoded reply to a request from `from` is judged.
pub open spec fn youdao_outcome(
    type_code: Seq<char>,
    error_code: i64,
    rows: Seq<Vec<YoudaoSegment>>,
    from: Seq<char>,
) -> Result<(Seq<char>, Seq<char>), ErrorView> {
    if error_code != 0 {
        Err(ErrorView::Api("Youdao text translate error: errorCode="@ + int_text(error_code as int)))
    } else if rows_text(rows).len() == 0 {
        Err(ErrorView::Api("Youdao text translate returned empty result"@))
    } else {
        let detected = if from == "auto"@ {
            type_source(type_code)
        } else {
            from
        };
        Ok((rows_text(rows), app_code_from_youdao(detected)))
    }
}

/// When the request's source is `auto` and Youdao answers with the language pair
/// `<A>2<B>`, the detected source language is the application's code for `A`.
pub proof fn law_youdao_detected_source(
    a: Seq<char>,
    b: Seq<char>,
    rows: Seq<Vec<YoudaoSegment>>,
)
    requires
        forall|j: int| 0 <= j < a.len() ==> a[j] != '2',
        rows_text(rows).len() > 0,
    ensures
        youdao_outcome(a + seq!['2'] + b, 0, rows, "auto"@) == Ok::<_, ErrorView>(
            (rows_text(rows), app_code_from_youdao(a)),
        ),
{
    lemma_first_char_index(a, '2', b);
    assert((a + seq!['2'] + b).take(a.len() as int) =~= a);
}

fn joined_targets(rows: &Vec<Vec<YoudaoSegment>>) -> (r: String)
    ensures
        r@ == rows_text(rows@),
{
    let mut r = String::new();
    let mut i: usize = 0;
    while i < rows.len()
        invariant
            i <= rows@.len(),
            r@ == rows_text(rows@.take(i as int)),
        decreases rows@.len() - i,
    {
        let row = &rows[i];
        let ghost before = r@;
        let mut j: usize = 0;
        while j < row.len()
            invariant
                j <= row@.len(),
                r@ == before + segments_text(row@.take(j as int)),
            decreases row@.len() - j,
        {
            r.append(row[j].tgt.as_str());
            assert(row@.take(j + 1).drop_last() =~= row@.take(j as int));
            j = j + 1;
        }
        assert(row@.take(row@.len() as int) =~= row@);
        assert(rows@.take(i + 1).drop_last() =~= rows@.take(i as int));
        i = i + 1;
    }
    assert(rows@.take(rows@.len() as int) =~= rows@);
    r
}

fn source_of_type(t: &str) -> (r: String)
    ensures
        r@ == type_source(t@),
{
    let v = chars_of(t);
    let n = v.len();
    match find_char_in(&v, '2', 0) {
        Some(k) => {
            proof {
                lemma_find_from(v@, seq!['2'], 0);
                assert(seq!['2'].len() == 1);
            }
            let s = text_of_range(&v, 0, k);
            assert(s@ =~= v@.take(k as int));
            s
        },
        None => {
            let s = text_of_range(&v, 0, n);
            assert(s@ =~= v@);
            s
        },
    }
}

/// Judges a decoded reply to a request whose source language is `from`.
pub fn interpret_youdao_reply(reply: &YoudaoReply, from: &str) -> (r: AppResult<TextTranslationResult>)
    ensures
        match r {
            Ok(t) => youdao_outcome(reply.type_code@, reply.error_code, reply.translate_result@, from@)
                == Ok::<_, ErrorView>((t.translated_text@, t.from_lang_detected@)),
            Err(e) => youdao_outcome(
                reply.type_code@,
                reply.error_code,
                reply.translate_result@,
                from@,
            ) == Err::<(Seq<char>, Seq<char>), _>(e@),
        },
{
    if reply.error_code != 0 {
        let mut msg = "Youdao text translate error: errorCode=".to_owned();
        push_signed_decimal(&mut msg, reply.error_code);
        return Err(AppError::Api(msg));
    }
    let translated = joined_targets(&reply.translate_result);
    if translated.as_str().is_empty() {
        return Err(AppError::Api("Youdao text translate returned empty result".to_owned()));
    }
    let detected = if same_text(from, "auto") {
        source_of_type(reply.type_code.as_str())
    } else {
        from.to_owned()
    };
    let lang = normalize_youdao_lang(detected.as_str());
    Ok(TextTranslationResult { translated_text: translated, from_lang_detected: lang })
}

} // verus!
