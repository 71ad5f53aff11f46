//! The pure half of translation dispatch: choosing the target language from
//! the text, the language-name table, and prompt construction from the
//! configured templates. The HTTP calls that carry the request live with
//! the embedding program; they receive the strings built here.

use vstd::prelude::*;

use crate::config::{find_id, preset_ids, Config};
use crate::text::{lower_seq, span_eq_lower, trim_spec};

verus! {

/// One translation request.
#[derive(Debug, Clone)]
pub struct TranslateRequest {
    pub text: String,
    pub source_lang: Option<String>,
    pub target_lang: String,
}

/// One translation result.
#[derive(Debug, Clone)]
pub struct TranslateResponse {
    pub translated_text: String,
}

/// Whether a character belongs to the CJK ranges the auto-detection looks
/// for: unified ideographs, their extension, hiragana, katakana.
pub open spec fn is_cjk(c: char) -> bool {
    ('\u{4E00}' <= c && c <= '\u{9FFF}') || ('\u{3400}' <= c && c <= '\u{4DBF}') || (
    '\u{3040}' <= c && c <= '\u{309F}') || ('\u{30A0}' <= c && c <= '\u{30FF}')
}

/// Whether any character of the text is CJK.
pub open spec fn has_cjk(s: Seq<char>) -> bool {
    exists|i: int| 0 <= i < s.len() && is_cjk(s[i])
}

/// The target language of a request: with auto-detection, CJK text goes to
/// English and anything else to Chinese; otherwise the configured target.
pub fn determine_target_lang(config: &Config, text: &str) -> (r: String)
    ensures
        config.auto_detect ==> r@ == (if has_cjk(text@) {
            "en"@
        } else {
            "zh"@
        }),
        !config.auto_detect ==> r@ == config.target_lang@,
{
    if !config.auto_detect {
        return config.target_lang.clone();
    }
    let n = text.unicode_len();
    let mut i: usize = 0;
    while i < n
        invariant
            i <= n == text@.len(),
            config.auto_detect,
            forall|j: int| 0 <= j < i ==> !is_cjk(text@[j]),
        decreases n - i,
    {
        let c = text.get_char(i);
        if ('\u{4E00}' <= c && c <= '\u{9FFF}') || ('\u{3400}' <= c && c <= '\u{4DBF}') || (
        '\u{3040}' <= c && c <= '\u{309F}') || ('\u{30A0}' <= c && c <= '\u{30FF}') {
            return String::from_str("en");
        }
        i += 1;
    }
    String::from_str("zh")
}

/// The display name of a language code, for codes the table knows. The
/// lookup is case-insensitive.
pub open spec fn known_language_name(lc: Seq<char>) -> Option<Seq<char>> {
    if lc == "zh"@ || lc == "zh-cn"@ {
        Some("简体中文"@)
    } else if lc == "zh-tw"@ || lc == "zh-hk"@ {
        Some("繁體中文"@)
    } else if lc == "en"@ {
        Some("English"@)
    } else if lc == "ja"@ {
        Some("日本語"@)
    } else if lc == "ko"@ {
        Some("한국어"@)
    } else if lc == "fr"@ {
        Some("Français"@)
    } else if lc == "de"@ {
        Some("Deutsch"@)
    } else if lc == "es"@ {
        Some("Español"@)
    } else if lc == "ru"@ {
        Some("Русский"@)
    } else if lc == "pt"@ {
        Some("Português"@)
    } else if lc == "it"@ {
        Some("Italiano"@)
    } else if lc == "ar"@ {
        Some("العربية"@)
    } else if lc == "th"@ {
        Some("ไทย"@)
    } else if lc == "vi"@ {
        Some("Tiếng Việt"@)
    } else {
        None
    }
}

/// The display name of a language code; an unknown code stands for itself.
pub open spec fn language_name_chars(code: Seq<char>) -> Seq<char> {
    match known_language_name(lower_seq(code)) {
        Some(n) => n,
        None => code,
    }
}

/// Executable language-name lookup.
pub fn get_language_name(code: &str) -> (r: String)
    ensures
        r@ == language_name_chars(code@),
{
    let n = code.unicode_len();
    proof {
        assert(code@.subrange(0, n as int) =~= code@);
    }
    if span_eq_lower(code, 0, n, "zh") || span_eq_lower(code, 0, n, "zh-cn") {
        String::from_str("简体中文")
    } else if span_eq_lower(code, 0, n, "zh-tw") || span_eq_lower(code, 0, n, "zh-hk") {
        String::from_str("繁體中文")
    } else if span_eq_lower(code, 0, n, "en") {
        String::from_str("English")
    } else if span_eq_lower(code, 0, n, "ja") {
        String::from_str("日本語")
    } else if span_eq_lower(code, 0, n, "ko") {
        String::from_str("한국어")
    } else if span_eq_lower(code, 0, n, "fr") {
        String::from_str("Français")
    } else if span_eq_lower(code, 0, n, "de") {
        String::from_str("Deutsch")
    } else if span_eq_lower(code, 0, n, "es") {
        String::from_str("Español")
    } else if span_eq_lower(code, 0, n, "ru") {
        String::from_str("Русский")
    } else if span_eq_lower(code, 0, n, "pt") {
        String::from_str("Português")
    } else if span_eq_lower(code, 0, n, "it") {
        String::from_str("Italiano")
    } else if span_eq_lower(code, 0, n, "ar") {
        String::from_str("العربية")
    } else if span_eq_lower(code, 0, n, "th") {
        String::from_str("ไทย")
    } else if span_eq_lower(code, 0, n, "vi") {
        String::from_str("Tiếng Việt")
    } else {
        code.to_owned()
    }
}

/// Replace every occurrence of a pattern, scanning left to right without
/// overlap; an empty pattern replaces nothing.
pub open spec fn replace_spec(s: Seq<char>, pat: Seq<char>, rep: Seq<char>) -> Seq<char>
    decreases s.len(),
{
    if pat.len() == 0 || s.len() < pat.len() {
        s
    } else if s.subrange(0, pat.len() as int) == pat {
        rep + replace_spec(s.subrange(pat.len() as int, s.len() as int), pat, rep)
    } else {
        seq![s[0]] + replace_spec(s.subrange(1, s.len() as int), pat, rep)
    }
}

/// Whether the pattern occurs at position `at`.
fn span_matches(s: &str, at: usize, pat: &str) -> (r: bool)
    requires
        at <= s@.len(),
    ensures
        r == (at + pat@.len() <= s@.len() && s@.subrange(
            at as int,
            at + pat@.len(),
        ) == pat@),
{
    let m = pat.unicode_len();
    let n = s.unicode_len();
    if n - at < m {
        proof {
            assert(at + pat@.len() > s@.len());
        }
        return false;
    }
    let mut j: usize = 0;
    while j < m
        invariant
            j <= m == pat@.len(),
            at + m <= n == s@.len(),
            forall|k: int| 0 <= k < j ==> s@[at + k] == pat@[k],
        decreases m - j,
    {
        if s.get_char(at + j) != pat.get_char(j) {
            proof {
                assert(s@.subrange(at as int, at + pat@.len())[j as int] != pat@[j as int]);
            }
            return false;
        }
        j += 1;
    }
    proof {
        assert(s@.subrange(at as int, at + pat@.len()) =~= pat@);
    }
    true
}

/// Executable replacement of every occurrence of a pattern.
pub fn replace_all(s: &str, pat: &str, rep: &str) -> (r: String)
    ensures
        r@ == replace_spec(s@, pat@, rep@),
{
    let m = pat.unicode_len();
    let n = s.unicode_len();
    if m == 0 {
        return s.to_owned();
    }
    let mut out = String::new();
    let mut i: usize = 0;
    proof {
        assert(s@.subrange(0, n as int) =~= s@);
    }
    while i < n
        invariant
            i <= n == s@.len(),
            0 < m == pat@.len(),
            replace_spec(s@, pat@, rep@) == out@ + replace_spec(
                s@.subrange(i as int, n as int),
                pat@,
                rep@,
            ),
        decreases n - i,
    {
        let ghost rest = s@.subrange(i as int, n as int);
        if span_matches(s, i, pat) {
            proof {
                assert(rest.subrange(0, m as int) =~= s@.subrange(i as int, i + m));
                assert(rest.subrange(m as int, rest.len() as int) =~= s@.subrange(
                    i + m,
                    n as int,
                ));
            }
            out.append(rep);
            i += m;
        } else {
            proof {
                if i + m <= n {
                    assert(rest.subrange(0, m as int) =~= s@.subrange(i as int, i + m));
                }
                assert(rest[0] == s@[i as int]);
                assert(rest.subrange(1, rest.len() as int) =~= s@.subrange(i + 1, n as int));
            }
            let c = s.substring_char(i, i + 1);
            proof {
                assert(c@ =~= seq![s@[i as int]]);
            }
            out.append(c);
            i += 1;
        }
    }
    proof {
        assert(s@.subrange(n as int, n as int) =~= Seq::<char>::empty());
    }
    out
}

/// What rendering a prompt template means: the four placeholders replaced,
/// in a fixed order, an absent source language standing for the empty
/// string.
pub open spec fn render_chars(
    template: Seq<char>,
    target_name: Seq<char>,
    target_code: Seq<char>,
    text: Seq<char>,
    source_code: Seq<char>,
) -> Seq<char> {
    replace_spec(
        replace_spec(
            replace_spec(
                replace_spec(template, "{{target_lang_name}}"@, target_name),
                "{{target_lang_code}}"@,
                target_code,
            ),
            "{{text}}"@,
            text,
        ),
        "{{source_lang_code}}"@,
        source_code,
    )
}

/// Render a prompt template against a request's values.
pub fn render_prompt_template(
    template: &str,
    target_name: &str,
    target_code: &str,
    text: &str,
    source_code: &str,
) -> (r: String)
    ensures
        r@ == render_chars(template@, target_name@, target_code@, text@, source_code@),
{
    let step1 = replace_all(template, "{{target_lang_name}}", target_name);
    let step2 = replace_all(step1.as_str(), "{{target_lang_code}}", target_code);
    let step3 = replace_all(step2.as_str(), "{{text}}", text);
    replace_all(step3.as_str(), "{{source_lang_code}}", source_code)
}

/// The built-in system prompt: the translation rules around the target
/// language's display name.
pub open spec fn system_prompt_chars(target_code: Seq<char>) -> Seq<char> {
    "你是一位专业的 "@ + language_name_chars(target_code) + " 母语翻译者，需要流畅地将文本翻译成 "@ + language_name_chars(
        target_code,
    )
        + "。\n\n## 翻译规则\n1. 仅输出翻译内容，不要包含解释或其他额外内容（例如\"翻译如下：\"或\"以下是翻译：\"等）\n2. 返回的翻译必须保持与原文完全相同的段落数和格式\n3. 如果文本包含 HTML 标签，在保持流畅性的同时，请考虑标签在翻译中的位置\n4. 对于不应翻译的内容（如专有名词、代码等），请保留原文\n5. 直接输出翻译（无分隔符，无额外文本）"@
}

/// The built-in user prompt around the text to translate.
pub open spec fn user_prompt_chars(target_code: Seq<char>, text: Seq<char>) -> Seq<char> {
    "翻译成 "@ + language_name_chars(target_code) + "（仅输出翻译）：\n\n"@ + text
}

/// Render the built-in system prompt.
pub fn get_translation_system_prompt(target_lang: &str) -> (r: String)
    ensures
        r@ == system_prompt_chars(target_lang@),
{
    let name = get_language_name(target_lang);
    let mut out = String::from_str("你是一位专业的 ");
    out.append(name.as_str());
    out.append(" 母语翻译者，需要流畅地将文本翻译成 ");
    out.append(name.as_str());
    out.append(
        "。\n\n## 翻译规则\n1. 仅输出翻译内容，不要包含解释或其他额外内容（例如\"翻译如下：\"或\"以下是翻译：\"等）\n2. 返回的翻译必须保持与原文完全相同的段落数和格式\n3. 如果文本包含 HTML 标签，在保持流畅性的同时，请考虑标签在翻译中的位置\n4. 对于不应翻译的内容（如专有名词、代码等），请保留原文\n5. 直接输出翻译（无分隔符，无额外文本）",
    );
    proof {
        assert(out@ =~= system_prompt_chars(target_lang@));
    }
    out
}

/// Render the built-in user prompt.
pub fn get_translation_user_prompt(target_lang: &str, text: &str) -> (r: String)
    ensures
        r@ == user_prompt_chars(target_lang@, text@),
{
    let name = get_language_name(target_lang);
    let mut out = String::from_str("翻译成 ");
    out.append(name.as_str());
    out.append("（仅输出翻译）：\n\n");
    out.append(text);
    proof {
        assert(out@ =~= user_prompt_chars(target_lang@, text@));
    }
    out
}

/// What the system prompt of a request is: the active preset's template
/// rendered, or the built-in prompt when there is no preset or its
/// template is blank.
pub open spec fn built_system_chars(config: Config, request: TranslateRequest) -> Seq<char> {
    let source = match request.source_lang {
        Some(s) => s@,
        None => Seq::<char>::empty(),
    };
    match find_id(preset_ids(config.prompt_presets@), config.active_prompt_preset_id@) {
        None => system_prompt_chars(request.target_lang@),
        Some(i) => {
            let p = config.prompt_presets@[i];
            if trim_spec(p.system_template@).len() == 0 {
                system_prompt_chars(request.target_lang@)
            } else {
                render_chars(
                    p.system_template@,
                    language_name_chars(request.target_lang@),
                    request.target_lang@,
                    request.text@,
                    source,
                )
            }
        }
    }
}

/// What the user prompt of a request is, likewise.
pub open spec fn built_user_chars(config: Config, request: TranslateRequest) -> Seq<char> {
    let source = match request.source_lang {
        Some(s) => s@,
        None => Seq::<char>::empty(),
    };
    match find_id(preset_ids(config.prompt_presets@), config.active_prompt_preset_id@) {
        None => user_prompt_chars(request.target_lang@, request.text@),
        Some(i) => {
            let p = config.prompt_presets@[i];
            if trim_spec(p.user_template@).len() == 0 {
                user_prompt_chars(request.target_lang@, request.text@)
            } else {
                render_chars(
                    p.user_template@,
                    language_name_chars(request.target_lang@),
                    request.target_lang@,
                    request.text@,
                    source,
                )
            }
        }
    }
}

/// Build the system and user prompts a request is sent with.
pub fn build_translation_prompts(config: &Config, request: &TranslateRequest) -> (r: (
    String,
    String,
))
    ensures
        r.0@ == built_system_chars(*config, *request),
        r.1@ == built_user_chars(*config, *request),
{
    let name = get_language_name(request.target_lang.as_str());
    let source: &str = match &request.source_lang {
        Some(s) => s.as_str(),
        None => "",
    };
    proof {
        reveal_strlit("");
        assert(""@ =~= Seq::<char>::empty());
    }
    match config.active_prompt_preset() {
        None => {
            (
                get_translation_system_prompt(request.target_lang.as_str()),
                get_translation_user_prompt(request.target_lang.as_str(), request.text.as_str()),
            )
        }
        Some(preset) => {
            let system = if crate::text::is_blank(preset.system_template.as_str()) {
                get_translation_system_prompt(request.target_lang.as_str())
            } else {
                render_prompt_template(
                    preset.system_template.as_str(),
                    name.as_str(),
                    request.target_lang.as_str(),
                    request.text.as_str(),
                    source,
                )
            };
            let user = if crate::text::is_blank(preset.user_template.as_str()) {
                get_translation_user_prompt(request.target_lang.as_str(), request.text.as_str())
            } else {
                render_prompt_template(
                    preset.user_template.as_str(),
                    name.as_str(),
                    request.target_lang.as_str(),
                    request.text.as_str(),
                    source,
                )
            };
            (system, user)
        }
    }
}

} // verus!
