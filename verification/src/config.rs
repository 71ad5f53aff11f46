//! Configuration data and its normalization rules: the provider list is
//! reconciled against the built-in presets (saved keys kept, preset names
//! and kinds restored, unknown entries kept after them in id order), fields
//! that a provider kind does not use are cleared, and the active ids are
//! made to point at existing entries.

use vstd::prelude::*;

use crate::text::{is_blank, lemma_lex_asym, lemma_lex_nlt_trans, lex_lt, str_eq, str_lt};

verus! {

/// The kinds of translation service a provider entry can name.
#[derive(Debug, Clone, Copy, PartialEq, Eq, Structural)]
pub enum ProviderType {
    Google,
    DeepL,
    OpenAI,
    Anthropic,
}

/// One translation-service entry.
#[derive(Debug, Clone)]
pub struct ProviderConfig {
    pub id: String,
    pub name: String,
    pub provider_type: ProviderType,
    pub api_base: String,
    pub api_key: String,
    pub model: String,
    pub is_preset: bool,
}

/// One prompt preset for LLM translation.
#[derive(Debug, Clone)]
pub struct PromptPreset {
    pub id: String,
    pub name: String,
    pub system_template: String,
    pub user_template: String,
    pub is_preset: bool,
}

/// The UI language choice.
#[derive(Debug, Clone, Copy, PartialEq, Eq, Structural)]
pub enum UILanguage {
    Auto,
    En,
    Zh,
}

impl Default for UILanguage {
    /// The default follows the system.
    fn default() -> (r: UILanguage)
        ensures
            r == UILanguage::Auto,
    {
        UILanguage::Auto
    }
}

/// The application settings this subsystem works from.
#[derive(Debug, Clone)]
pub struct Config {
    pub hotkey: String,
    pub hotkey_log_enabled: bool,
    pub target_lang: String,
    pub source_lang: String,
    pub auto_detect: bool,
    pub active_provider_id: String,
    pub providers: Vec<ProviderConfig>,
    pub active_prompt_preset_id: String,
    pub prompt_presets: Vec<PromptPreset>,
    pub ui_language: UILanguage,
}

/// The first position holding the wanted id.
pub open spec fn find_id(ids: Seq<Seq<char>>, id: Seq<char>) -> Option<int>
    decreases ids.len(),
{
    if ids.len() == 0 {
        None
    } else if ids[0] == id {
        Some(0int)
    } else {
        match find_id(ids.subrange(1, ids.len() as int), id) {
            Some(i) => Some(i + 1),
            None => None,
        }
    }
}

/// The ids of a provider list.
pub open spec fn provider_ids(ps: Seq<ProviderConfig>) -> Seq<Seq<char>> {
    ps.map_values(|p: ProviderConfig| p.id@)
}

/// The ids of a preset list.
pub open spec fn preset_ids(ps: Seq<PromptPreset>) -> Seq<Seq<char>> {
    ps.map_values(|p: PromptPreset| p.id@)
}

/// A match at `i` with no match before it is what `find_id` returns.
pub proof fn lemma_find_at(ids: Seq<Seq<char>>, id: Seq<char>, i: int)
    requires
        0 <= i < ids.len(),
        ids[i] == id,
        forall|j: int| 0 <= j < i ==> ids[j] != id,
    ensures
        find_id(ids, id) == Some(i),
    decreases i,
{
    if i > 0 {
        let rest = ids.subrange(1, ids.len() as int);
        assert forall|j: int| 0 <= j < i - 1 implies rest[j] != id by {
            assert(rest[j] == ids[j + 1]);
        }
        assert(rest[i - 1] == ids[i]);
        lemma_find_at(rest, id, i - 1);
    }
}

/// No match anywhere means `find_id` finds nothing.
pub proof fn lemma_find_none(ids: Seq<Seq<char>>, id: Seq<char>)
    requires
        forall|j: int| 0 <= j < ids.len() ==> ids[j] != id,
    ensures
        find_id(ids, id) is None,
    decreases ids.len(),
{
    if ids.len() > 0 {
        let rest = ids.subrange(1, ids.len() as int);
        assert forall|j: int| 0 <= j < rest.len() implies rest[j] != id by {
            assert(rest[j] == ids[j + 1]);
        }
        lemma_find_none(rest, id);
    }
}

/// A found position is a position of the list.
pub proof fn lemma_find_bounds(ids: Seq<Seq<char>>, id: Seq<char>)
    ensures
        find_id(ids, id) matches Some(i) ==> 0 <= i < ids.len(),
    decreases ids.len(),
{
    if ids.len() > 0 {
        lemma_find_bounds(ids.subrange(1, ids.len() as int), id);
    }
}

/// The last position holding the wanted id: when a saved list carries an
/// id twice, the later entry wins.
pub open spec fn rfind_id(ids: Seq<Seq<char>>, id: Seq<char>) -> Option<int>
    decreases ids.len(),
{
    if ids.len() == 0 {
        None
    } else if ids[ids.len() - 1] == id {
        Some(ids.len() - 1)
    } else {
        rfind_id(ids.subrange(0, ids.len() - 1), id)
    }
}

/// A match at `j` with no match after it is what `rfind_id` returns.
pub proof fn lemma_rfind_at(ids: Seq<Seq<char>>, id: Seq<char>, j: int)
    requires
        0 <= j < ids.len(),
        ids[j] == id,
        forall|k: int| j < k < ids.len() ==> ids[k] != id,
    ensures
        rfind_id(ids, id) == Some(j),
    decreases ids.len(),
{
    if j < ids.len() - 1 {
        let front = ids.subrange(0, ids.len() - 1);
        assert(front[j] == ids[j]);
        assert forall|k: int| j < k < front.len() implies front[k] != id by {
            assert(front[k] == ids[k]);
        }
        lemma_rfind_at(front, id, j);
    }
}

/// No match anywhere means `rfind_id` finds nothing.
pub proof fn lemma_rfind_none(ids: Seq<Seq<char>>, id: Seq<char>)
    requires
        forall|k: int| 0 <= k < ids.len() ==> ids[k] != id,
    ensures
        rfind_id(ids, id) is None,
    decreases ids.len(),
{
    if ids.len() > 0 {
        let front = ids.subrange(0, ids.len() - 1);
        assert forall|k: int| 0 <= k < front.len() implies front[k] != id by {
            assert(front[k] == ids[k]);
        }
        lemma_rfind_none(front, id);
    }
}


/// A position whose id is found there.
pub proof fn lemma_find_exists(ids: Seq<Seq<char>>, id: Seq<char>, i: int)
    requires
        0 <= i < ids.len(),
        ids[i] == id,
    ensures
        find_id(ids, id) is Some,
    decreases ids.len(),
{
    if ids[0] != id {
        let rest = ids.subrange(1, ids.len() as int);
        assert(rest[i - 1] == ids[i]);
        lemma_find_exists(rest, id, i - 1);
    }
}

/// What a found position holds.
pub proof fn lemma_find_char(ids: Seq<Seq<char>>, id: Seq<char>)
    ensures
        find_id(ids, id) matches Some(i) ==> 0 <= i < ids.len() && ids[i] == id,
    decreases ids.len(),
{
    if ids.len() > 0 && ids[0] != id {
        let rest = ids.subrange(1, ids.len() as int);
        lemma_find_char(rest, id);
    }
}

/// A position whose id is found from the right too.
pub proof fn lemma_rfind_exists(ids: Seq<Seq<char>>, id: Seq<char>, i: int)
    requires
        0 <= i < ids.len(),
        ids[i] == id,
    ensures
        rfind_id(ids, id) is Some,
    decreases ids.len(),
{
    if ids[ids.len() - 1] != id {
        let front = ids.subrange(0, ids.len() - 1);
        assert(front[i] == ids[i]);
        lemma_rfind_exists(front, id, i);
    }
}

/// What the rightmost found position holds: a match with no match after it.
pub proof fn lemma_rfind_char(ids: Seq<Seq<char>>, id: Seq<char>)
    ensures
        rfind_id(ids, id) matches Some(j) ==> 0 <= j < ids.len() && ids[j] == id && (forall|k: int|
            j < k < ids.len() ==> ids[k] != id),
    decreases ids.len(),
{
    if ids.len() > 0 && ids[ids.len() - 1] != id {
        let front = ids.subrange(0, ids.len() - 1);
        lemma_rfind_char(front, id);
        if rfind_id(ids, id) is Some {
            let j = rfind_id(front, id)->Some_0;
            assert(ids[j] == front[j]);
            assert forall|k: int| j < k < ids.len() implies ids[k] != id by {
                if k < ids.len() - 1 {
                    assert(front[k] == ids[k]);
                }
            }
        }
    }
}

/// No later position shares this position's id: the entry a map keyed by
/// id would keep.
pub open spec fn last_of_id(ids: Seq<Seq<char>>, j: int) -> bool {
    forall|k: int| j < k < ids.len() ==> ids[k] != ids[j]
}

/// The ids of the built-in provider presets, in their fixed order.
pub open spec fn preset_provider_ids() -> Seq<Seq<char>> {
    seq!["google"@, "deepl"@, "zhipu"@, "openai"@, "anthropic"@, "custom"@]
}

/// Fields a provider kind does not use are held clear: the keyless kind
/// carries no base, key or model, and the kind with a fixed model carries
/// no model.
pub open spec fn kind_fields_clear(p: ProviderConfig) -> bool {
    &&& (p.provider_type == ProviderType::Google ==> p.api_base@ == Seq::<char>::empty()
        && p.api_key@ == Seq::<char>::empty() && p.model@ == Seq::<char>::empty())
    &&& (p.provider_type == ProviderType::DeepL ==> p.model@ == Seq::<char>::empty())
}

/// The display name of each built-in preset position.
pub open spec fn preset_provider_name(d: int) -> Seq<char> {
    if d == 0 {
        "Google Translate"@
    } else if d == 1 {
        "DeepL"@
    } else if d == 2 {
        "Zhipu GLM"@
    } else if d == 3 {
        "OpenAI"@
    } else if d == 4 {
        "Anthropic"@
    } else {
        "Custom"@
    }
}

/// The provider kind of each built-in preset position.
pub open spec fn preset_provider_type(d: int) -> ProviderType {
    if d == 0 {
        ProviderType::Google
    } else if d == 1 {
        ProviderType::DeepL
    } else if d == 4 {
        ProviderType::Anthropic
    } else {
        ProviderType::OpenAI
    }
}

/// The id every fresh configuration's prompt preset starts on.
pub fn default_active_prompt_preset_id() -> (r: String)
    ensures
        r@ == "default"@,
{
    String::from_str("default")
}

/// The built-in prompt presets: the strict default and the light-polish
/// variant.
pub fn default_prompt_presets() -> (r: Vec<PromptPreset>)
    ensures
        r@.len() == 2,
        r@[0].id@ == "default"@ && r@[0].is_preset,
        r@[1].id@ == "polish"@ && r@[1].is_preset,
{
    let mut out: Vec<PromptPreset> = Vec::new();
    out.push(
        PromptPreset {
            id: String::from_str("default"),
            name: String::from_str("默认（严格）"),
            system_template: String::from_str(
                "你是一位专业的 {{target_lang_name}} 母语翻译者，需要流畅地将文本翻译成 {{target_lang_name}}。\n\n## 翻译规则\n1. 仅输出翻译内容，不要包含解释或其他额外内容（例如\"翻译如下：\"或\"以下是翻译：\"等）\n2. 返回的翻译必须保持与原文完全相同的段落数和格式\n3. 如果文本包含 HTML 标签，在保持流畅性的同时，请考虑标签在翻译中的位置\n4. 对于不应翻译的内容（如专有名词、代码等），请保留原文\n5. 直接输出翻译（无分隔符，无额外文本）",
            ),
            user_template: String::from_str("翻译成 {{target_lang_name}}（仅输出翻译）：\n\n{{text}}"),
            is_preset: true,
        },
    );
    out.push(
        PromptPreset {
            id: String::from_str("polish"),
            name: String::from_str("更自然（轻润色）"),
            system_template: String::from_str(
                "你是一位专业的 {{target_lang_name}} 母语译者。请在忠实原意的前提下，让译文更自然、更符合目标语言的表达习惯。\n\n规则：\n1. 仅输出译文，不要附加解释、标题或标注\n2. 段落与格式保持一致（包括换行、列表等）\n3. 遇到代码、专有名词、链接等不应翻译内容时，保持原样",
            ),
            user_template: String::from_str("将下文翻译为 {{target_lang_name}}：\n\n{{text}}"),
            is_preset: true,
        },
    );
    out
}

/// The built-in provider presets, in their fixed order.
pub fn default_providers() -> (r: Vec<ProviderConfig>)
    ensures
        r@.len() == 6,
        r@[0].id@ == "google"@ && r@[0].provider_type == ProviderType::Google && r@[0].is_preset,
        r@[1].id@ == "deepl"@ && r@[1].provider_type == ProviderType::DeepL && r@[1].is_preset,
        r@[2].id@ == "zhipu"@ && r@[2].provider_type == ProviderType::OpenAI && r@[2].is_preset,
        r@[3].id@ == "openai"@ && r@[3].provider_type == ProviderType::OpenAI && r@[3].is_preset,
        r@[4].id@ == "anthropic"@ && r@[4].provider_type == ProviderType::Anthropic
            && r@[4].is_preset,
        r@[5].id@ == "custom"@ && r@[5].provider_type == ProviderType::OpenAI && !r@[5].is_preset,
        r@[0].name@ == "Google Translate"@ && r@[1].name@ == "DeepL"@ && r@[2].name@
            == "Zhipu GLM"@ && r@[3].name@ == "OpenAI"@ && r@[4].name@ == "Anthropic"@
            && r@[5].name@ == "Custom"@,
        forall|d: int| 0 <= d < 6 ==> #[trigger] r@[d].api_key@ == Seq::<char>::empty(),
        r@[0].api_base@ == Seq::<char>::empty(),
        r@[1].api_base@ == "https://api-free.deepl.com/v2"@,
        r@[2].api_base@ == "https://open.bigmodel.cn/api/paas/v4"@,
        r@[3].api_base@ == "https://api.openai.com/v1"@,
        r@[4].api_base@ == "https://api.anthropic.com"@,
        r@[5].api_base@ == Seq::<char>::empty(),
        r@[0].model@ == Seq::<char>::empty(),
        r@[1].model@ == Seq::<char>::empty(),
        r@[2].model@ == "glm-4-flash"@,
        r@[3].model@ == "gpt-4o-mini"@,
        r@[4].model@ == Seq::<char>::empty(),
        r@[5].model@ == Seq::<char>::empty(),
{
    let mut out: Vec<ProviderConfig> = Vec::new();
    out.push(
        ProviderConfig {
            id: String::from_str("google"),
            name: String::from_str("Google Translate"),
            provider_type: ProviderType::Google,
            api_base: String::new(),
            api_key: String::new(),
            model: String::new(),
            is_preset: true,
        },
    );
    out.push(
        ProviderConfig {
            id: String::from_str("deepl"),
            name: String::from_str("DeepL"),
            provider_type: ProviderType::DeepL,
            api_base: String::from_str("https://api-free.deepl.com/v2"),
            api_key: String::new(),
            model: String::new(),
            is_preset: true,
        },
    );
    out.push(
        ProviderConfig {
            id: String::from_str("zhipu"),
            name: String::from_str("Zhipu GLM"),
            provider_type: ProviderType::OpenAI,
            api_base: String::from_str("https://open.bigmodel.cn/api/paas/v4"),
            api_key: String::new(),
            model: String::from_str("glm-4-flash"),
            is_preset: true,
        },
    );
    out.push(
        ProviderConfig {
            id: String::from_str("openai"),
            name: String::from_str("OpenAI"),
            provider_type: ProviderType::OpenAI,
            api_base: String::from_str("https://api.openai.com/v1"),
            api_key: String::new(),
            model: String::from_str("gpt-4o-mini"),
            is_preset: true,
        },
    );
    out.push(
        ProviderConfig {
            id: String::from_str("anthropic"),
            name: String::from_str("Anthropic"),
            provider_type: ProviderType::Anthropic,
            api_base: String::from_str("https://api.anthropic.com"),
            api_key: String::new(),
            // The shipped default names a specific hosted model; this build
            // leaves the field for the user to fill in.
            model: String::new(),
            is_preset: true,
        },
    );
    out.push(
        ProviderConfig {
            id: String::from_str("custom"),
            name: String::from_str("Custom"),
            provider_type: ProviderType::OpenAI,
            api_base: String::new(),
            api_key: String::new(),
            model: String::new(),
            is_preset: false,
        },
    );
    out
}

impl Default for Config {
    /// A fresh configuration: the default binding, Chinese as the target
    /// with auto-detection, the free provider active, the built-in presets.
    fn default() -> (r: Config)
        ensures
            r.hotkey@ == "Alt+Q"@,
            !r.hotkey_log_enabled,
            r.target_lang@ == "zh"@,
            r.source_lang@ == Seq::<char>::empty(),
            r.auto_detect,
            r.active_provider_id@ == "google"@,
            r.providers@.len() == 6,
            r.active_prompt_preset_id@ == "default"@,
            r.prompt_presets@.len() == 2,
            r.ui_language == UILanguage::Auto,
    {
        Config {
            hotkey: String::from_str("Alt+Q"),
            hotkey_log_enabled: false,
            target_lang: String::from_str("zh"),
            source_lang: String::new(),
            auto_detect: true,
            active_provider_id: String::from_str("google"),
            providers: default_providers(),
            active_prompt_preset_id: default_active_prompt_preset_id(),
            prompt_presets: default_prompt_presets(),
            ui_language: UILanguage::Auto,
        }
    }
}

impl Config {
    /// The position of the provider with this id, if any.
    pub fn provider_index(&self, id: &str) -> (r: Option<usize>)
        ensures
            match find_id(provider_ids(self.providers@), id@) {
                Some(i) => r == Some(i as usize),
                None => r is None,
            },
    {
        let n = self.providers.len();
        let mut j: usize = 0;
        while j < n
            invariant
                j <= n == self.providers@.len(),
                forall|k: int| 0 <= k < j ==> provider_ids(self.providers@)[k] != id@,
            decreases n - j,
        {
            if str_eq(self.providers[j].id.as_str(), id) {
                proof {
                    lemma_find_at(provider_ids(self.providers@), id@, j as int);
                }
                return Some(j);
            }
            j += 1;
        }
        proof {
            lemma_find_none(provider_ids(self.providers@), id@);
        }
        None
    }

    /// The provider with this id, if any.
    pub fn get_provider(&self, id: &str) -> (r: Option<&ProviderConfig>)
        ensures
            match find_id(provider_ids(self.providers@), id@) {
                Some(i) => r matches Some(p) && *p == self.providers@[i],
                None => r is None,
            },
    {
        let n = self.providers.len();
        proof {
            lemma_find_bounds(provider_ids(self.providers@), id@);
            assert(provider_ids(self.providers@).len() == n);
        }
        match self.provider_index(id) {
            Some(i) => {
                let p = &self.providers[i];
                proof {
                    assert(*p == self.providers@[i as int]);
                }
                Some(p)
            }
            None => None,
        }
    }

    /// The provider the active id points at, if it exists.
    pub fn active_provider(&self) -> (r: Option<&ProviderConfig>)
        ensures
            match find_id(provider_ids(self.providers@), self.active_provider_id@) {
                Some(i) => r matches Some(p) && *p == self.providers@[i],
                None => r is None,
            },
    {
        self.get_provider(self.active_provider_id.as_str())
    }

    /// The position of the prompt preset with this id, if any.
    pub fn prompt_preset_index(&self, id: &str) -> (r: Option<usize>)
        ensures
            match find_id(preset_ids(self.prompt_presets@), id@) {
                Some(i) => r == Some(i as usize),
                None => r is None,
            },
    {
        let n = self.prompt_presets.len();
        let mut j: usize = 0;
        while j < n
            invariant
                j <= n == self.prompt_presets@.len(),
                forall|k: int| 0 <= k < j ==> preset_ids(self.prompt_presets@)[k] != id@,
            decreases n - j,
        {
            if str_eq(self.prompt_presets[j].id.as_str(), id) {
                proof {
                    lemma_find_at(preset_ids(self.prompt_presets@), id@, j as int);
                }
                return Some(j);
            }
            j += 1;
        }
        proof {
            lemma_find_none(preset_ids(self.prompt_presets@), id@);
        }
        None
    }

    /// The prompt preset with this id, if any.
    pub fn get_prompt_preset(&self, id: &str) -> (r: Option<&PromptPreset>)
        ensures
            match find_id(preset_ids(self.prompt_presets@), id@) {
                Some(i) => r matches Some(p) && *p == self.prompt_presets@[i],
                None => r is None,
            },
    {
        let n = self.prompt_presets.len();
        proof {
            lemma_find_bounds(preset_ids(self.prompt_presets@), id@);
            assert(preset_ids(self.prompt_presets@).len() == n);
        }
        match self.prompt_preset_index(id) {
            Some(i) => {
                let p = &self.prompt_presets[i];
                proof {
                    assert(*p == self.prompt_presets@[i as int]);
                }
                Some(p)
            }
            None => None,
        }
    }

    /// The prompt preset the active id points at, if it exists.
    pub fn active_prompt_preset(&self) -> (r: Option<&PromptPreset>)
        ensures
            match find_id(preset_ids(self.prompt_presets@), self.active_prompt_preset_id@) {
                Some(i) => r matches Some(p) && *p == self.prompt_presets@[i],
                None => r is None,
            },
    {
        self.get_prompt_preset(self.active_prompt_preset_id.as_str())
    }

    /// Reconcile the provider list with the built-in presets: every preset
    /// is present, in preset order, a saved entry under a preset id keeping
    /// its API key (later duplicates winning, as under the old map) while
    /// its name and kind are restored; unknown entries survive after the
    /// presets in id order; fields a provider kind does not use are
    /// cleared; and the active id is made to point at an existing entry.
    #[verifier::rlimit(100)]
    fn normalize_providers(&mut self)
        ensures
            final(self).providers@.len() >= 6,
            find_id(
                provider_ids(final(self).providers@),
                final(self).active_provider_id@,
            ) is Some,
            forall|d: int|
                0 <= d < 6 ==> provider_ids(final(self).providers@)[d] == preset_provider_ids()[d],
            forall|d: int|
                0 <= d < 6 ==> (#[trigger] final(self).providers@[d]).name@
                    == preset_provider_name(d) && final(self).providers@[d].is_preset == (d != 5),
            forall|d: int|
                1 <= d < 6 ==> (match rfind_id(
                    provider_ids(old(self).providers@),
                    #[trigger] preset_provider_ids()[d],
                ) {
                    Some(j) => final(self).providers@[d].api_key == old(self).providers@[j].api_key,
                    None => true,
                }),
            forall|i: int|
                0 <= i < final(self).providers@.len() ==> kind_fields_clear(
                    #[trigger] final(self).providers@[i],
                ),
            forall|j: int|
                0 <= j < old(self).providers@.len() ==> find_id(
                    provider_ids(final(self).providers@),
                    #[trigger] provider_ids(old(self).providers@)[j],
                ) is Some,
            forall|j: int|
                0 <= j < old(self).providers@.len() && last_of_id(
                    provider_ids(old(self).providers@),
                    j,
                ) && find_id(
                    preset_provider_ids(),
                    #[trigger] provider_ids(old(self).providers@)[j],
                ) is None ==> exists|d: int|
                    6 <= d < final(self).providers@.len() && (
                    #[trigger] final(self).providers@[d]).id@ == provider_ids(
                        old(self).providers@,
                    )[j] && final(self).providers@[d].provider_type
                        == old(self).providers@[j].provider_type && (
                    old(self).providers@[j].provider_type != ProviderType::Google
                        ==> final(self).providers@[d].api_key == old(self).providers@[j].api_key),
            forall|a: int, b: int|
                #![trigger final(self).providers@[a], final(self).providers@[b]]
                6 <= a < b < final(self).providers@.len() ==> !lex_lt(
                    final(self).providers@[b].id@,
                    final(self).providers@[a].id@,
                ),
            final(self).hotkey == old(self).hotkey,
            final(self).hotkey_log_enabled == old(self).hotkey_log_enabled,
            final(self).target_lang == old(self).target_lang,
            final(self).source_lang == old(self).source_lang,
            final(self).auto_detect == old(self).auto_detect,
            final(self).active_prompt_preset_id == old(self).active_prompt_preset_id,
            final(self).prompt_presets == old(self).prompt_presets,
            final(self).ui_language == old(self).ui_language,
    {
        let ghost old_ids = provider_ids(old(self).providers@);
        let defaults = default_providers();
        proof {
            assert forall|d: int| 0 <= d < 6 implies provider_ids(defaults@)[d]
                == preset_provider_ids()[d] && defaults@[d].provider_type == preset_provider_type(
                d,
            ) && defaults@[d].name@ == preset_provider_name(d) && defaults@[d].is_preset == (d
                != 5) by {
                assert(provider_ids(defaults@)[d] == defaults@[d].id@);
            }
        }
        let n = self.providers.len();

        if n == 0 {
            proof {
                lemma_rfind_none(old_ids, preset_provider_ids()[1]);
                lemma_rfind_none(old_ids, preset_provider_ids()[2]);
                lemma_rfind_none(old_ids, preset_provider_ids()[3]);
                lemma_rfind_none(old_ids, preset_provider_ids()[4]);
                lemma_rfind_none(old_ids, preset_provider_ids()[5]);
            }
            self.providers = defaults;
        } else {
            // Every preset is present, in preset order; the last saved
            // entry under a preset id keeps its key (and base and model
            // where set) but takes the preset's name and kind back.
            let mut merged: Vec<ProviderConfig> = Vec::new();
            let mut di: usize = 0;
            while di < 6
                invariant
                    di <= 6,
                    merged@.len() == di,
                    defaults@.len() == 6,
                    n == self.providers@.len(),
                    self.providers@ == old(self).providers@,
                    forall|d: int|
                        0 <= d < 6 ==> (#[trigger] provider_ids(defaults@)[d])
                            == preset_provider_ids()[d],
                    forall|d: int|
                        0 <= d < 6 ==> (#[trigger] defaults@[d].provider_type)
                            == preset_provider_type(d),
                    forall|d: int|
                        0 <= d < 6 ==> (#[trigger] defaults@[d].name)@ == preset_provider_name(d),
                    forall|d: int| 0 <= d < 6 ==> (#[trigger] defaults@[d].is_preset) == (d != 5),
                    forall|d: int| 0 <= d < di ==> merged@[d].id@ == preset_provider_ids()[d],
                    forall|d: int|
                        0 <= d < di ==> merged@[d].provider_type == preset_provider_type(d),
                    forall|d: int|
                        0 <= d < di ==> (#[trigger] merged@[d].name)@ == preset_provider_name(d),
                    forall|d: int| 0 <= d < di ==> (#[trigger] merged@[d].is_preset) == (d != 5),
                    forall|d: int|
                        0 <= d < di ==> (match rfind_id(
                            old_ids,
                            #[trigger] preset_provider_ids()[d],
                        ) {
                            Some(j) => merged@[d].api_key == old(self).providers@[j].api_key,
                            None => true,
                        }),
                    old_ids == provider_ids(old(self).providers@),
                decreases 6 - di,
            {
                let def = &defaults[di];
                proof {
                    assert(*def == defaults@[di as int]);
                    assert(provider_ids(defaults@)[di as int] == defaults@[di as int].id@);
                    assert(def.id@ == preset_provider_ids()[di as int]);
                    assert(def.provider_type == preset_provider_type(di as int));
                    assert(def.name@ == preset_provider_name(di as int));
                    assert(def.is_preset == (di as int != 5));
                }
                // The last saved entry under this id, if any.
                let mut found: Option<usize> = None;
                let mut j: usize = n;
                while j > 0
                    invariant
                        j <= n == self.providers@.len(),
                        di < 6,
                        self.providers@ == old(self).providers@,
                        *def == defaults@[di as int],
                        match found {
                            Some(f) => f < n && provider_ids(self.providers@)[f as int]
                                == def.id@ && (forall|k: int|
                                f < k < n ==> provider_ids(self.providers@)[k] != def.id@),
                            None => forall|k: int|
                                j <= k < n ==> provider_ids(self.providers@)[k] != def.id@,
                        },
                    decreases j,
                {
                    j -= 1;
                    let entry = &self.providers[j];
                    proof {
                        assert(*entry == self.providers@[j as int]);
                        assert(provider_ids(self.providers@)[j as int]
                            == self.providers@[j as int].id@);
                    }
                    if found.is_none() && str_eq(entry.id.as_str(), def.id.as_str()) {
                        found = Some(j);
                    }
                }
                match found {
                    Some(f) => {
                        proof {
                            assert(provider_ids(self.providers@)[f as int]
                                == self.providers@[f as int].id@);
                            assert(provider_ids(defaults@)[di as int]
                                == defaults@[di as int].id@);
                            lemma_rfind_at(old_ids, preset_provider_ids()[di as int], f as int);
                        }
                        let src = &self.providers[f];
                        proof {
                            assert(*src == self.providers@[f as int]);
                        }
                        let api_base = if is_blank(src.api_base.as_str()) {
                            def.api_base.clone()
                        } else {
                            src.api_base.clone()
                        };
                        let model = if is_blank(src.model.as_str()) {
                            def.model.clone()
                        } else {
                            src.model.clone()
                        };
                        merged.push(
                            ProviderConfig {
                                id: src.id.clone(),
                                name: def.name.clone(),
                                provider_type: def.provider_type,
                                api_base,
                                api_key: src.api_key.clone(),
                                model,
                                is_preset: def.is_preset,
                            },
                        );
                    }
                    None => {
                        proof {
                            assert(provider_ids(defaults@)[di as int]
                                == defaults@[di as int].id@);
                            assert forall|k: int| 0 <= k < old_ids.len() implies old_ids[k]
                                != preset_provider_ids()[di as int] by {
                                assert(provider_ids(self.providers@)[k] != def.id@);
                            }
                            lemma_rfind_none(old_ids, preset_provider_ids()[di as int]);
                        }
                        merged.push(
                            ProviderConfig {
                                id: def.id.clone(),
                                name: def.name.clone(),
                                provider_type: def.provider_type,
                                api_base: def.api_base.clone(),
                                api_key: def.api_key.clone(),
                                model: def.model.clone(),
                                is_preset: def.is_preset,
                            },
                        );
                    }
                }
                di += 1;
            }

            // Entries under no preset id survive (again the later duplicate
            // winning), kept after the presets in id order.
            let mut extras: Vec<ProviderConfig> = Vec::new();
            let ghost mut srcs: Seq<int> = Seq::empty();
            let mut j3: usize = 0;
            while j3 < n
                invariant
                    j3 <= n == self.providers@.len(),
                    defaults@.len() == 6,
                    self.providers@ == old(self).providers@,
                    old_ids == provider_ids(old(self).providers@),
                    forall|d: int|
                        0 <= d < 6 ==> (#[trigger] provider_ids(defaults@)[d])
                            == preset_provider_ids()[d],
                    srcs.len() == extras@.len(),
                    forall|q: int|
                        0 <= q < srcs.len() ==> 0 <= #[trigger] srcs[q] < n && extras@[q]
                            == self.providers@[srcs[q]] && last_of_id(old_ids, srcs[q]) && find_id(
                            preset_provider_ids(),
                            old_ids[srcs[q]],
                        ) is None,
                    forall|j2: int|
                        0 <= j2 < j3 && last_of_id(old_ids, j2) && find_id(
                            preset_provider_ids(),
                            #[trigger] old_ids[j2],
                        ) is None ==> exists|q: int|
                            0 <= q < extras@.len() && (#[trigger] extras@[q]).id@ == old_ids[j2],
                    forall|a: int, b: int|
                        #![trigger extras@[a], extras@[b]]
                        0 <= a < b < extras@.len() ==> !lex_lt(extras@[b].id@, extras@[a].id@),
                decreases n - j3,
            {
                let entry = &self.providers[j3];
                proof {
                    assert(*entry == self.providers@[j3 as int]);
                    assert(provider_ids(self.providers@)[j3 as int]
                        == self.providers@[j3 as int].id@);
                }
                let mut is_preset_id = false;
                let ghost mut preset_at: int = 0;
                let mut d2: usize = 0;
                while d2 < 6
                    invariant
                        d2 <= 6,
                        j3 < n == self.providers@.len(),
                        defaults@.len() == 6,
                        *entry == self.providers@[j3 as int],
                        forall|d: int|
                            0 <= d < 6 ==> (#[trigger] provider_ids(defaults@)[d])
                                == preset_provider_ids()[d],
                        is_preset_id ==> 0 <= preset_at < 6 && preset_provider_ids()[preset_at]
                            == entry.id@,
                        !is_preset_id ==> forall|d: int|
                            0 <= d < d2 ==> preset_provider_ids()[d] != entry.id@,
                    decreases 6 - d2,
                {
                    let dref = &defaults[d2];
                    proof {
                        assert(*dref == defaults@[d2 as int]);
                        assert(provider_ids(defaults@)[d2 as int] == defaults@[d2 as int].id@);
                    }
                    if str_eq(entry.id.as_str(), dref.id.as_str()) {
                        is_preset_id = true;
                        proof {
                            preset_at = d2 as int;
                        }
                    }
                    d2 += 1;
                }
                let mut dup_later = false;
                let ghost mut dup_at: int = 0;
                let mut k: usize = j3 + 1;
                while k < n
                    invariant
                        j3 < k <= n,
                        n == self.providers@.len(),
                        self.providers@ == old(self).providers@,
                        old_ids == provider_ids(old(self).providers@),
                        *entry == self.providers@[j3 as int],
                        dup_later ==> j3 < dup_at < n && old_ids[dup_at] == old_ids[j3 as int],
                        !dup_later ==> forall|k2: int|
                            j3 < k2 < k ==> old_ids[k2] != old_ids[j3 as int],
                    decreases n - k,
                {
                    let other = &self.providers[k];
                    proof {
                        assert(*other == self.providers@[k as int]);
                        assert(provider_ids(self.providers@)[k as int]
                            == self.providers@[k as int].id@);
                    }
                    if str_eq(other.id.as_str(), entry.id.as_str()) {
                        dup_later = true;
                        proof {
                            dup_at = k as int;
                        }
                    }
                    k += 1;
                }
                if !is_preset_id && !dup_later {
                    proof {
                        assert(preset_provider_ids().len() == 6);
                        lemma_find_none(preset_provider_ids(), entry.id@);
                        assert(old_ids[j3 as int] == entry.id@);
                        assert(last_of_id(old_ids, j3 as int));
                    }
                    // Insertion keeps the extras ordered by id.
                    let extra = ProviderConfig {
                        id: entry.id.clone(),
                        name: entry.name.clone(),
                        provider_type: entry.provider_type,
                        api_base: entry.api_base.clone(),
                        api_key: entry.api_key.clone(),
                        model: entry.model.clone(),
                        is_preset: entry.is_preset,
                    };
                    proof {
                        assert(extra == self.providers@[j3 as int]);
                    }
                    let mut pos: usize = 0;
                    while pos < extras.len() && str_lt(
                        extras[pos].id.as_str(),
                        extra.id.as_str(),
                    )
                        invariant
                            pos <= extras@.len(),
                            forall|t: int|
                                0 <= t < pos ==> lex_lt((#[trigger] extras@[t]).id@, extra.id@),
                        decreases extras.len() - pos,
                    {
                        pos += 1;
                    }
                    let ghost extras0 = extras@;
                    let ghost srcs0 = srcs;
                    extras.insert(pos, extra);
                    proof {
                        srcs = srcs0.insert(pos as int, j3 as int);
                        assert(extras@ =~= extras0.insert(pos as int, extra));
                        assert forall|q: int|
                            0 <= q < srcs.len() implies 0 <= #[trigger] srcs[q] < n && extras@[q]
                                == self.providers@[srcs[q]] && last_of_id(old_ids, srcs[q])
                                && find_id(preset_provider_ids(), old_ids[srcs[q]]) is None by {
                            if q < pos {
                                assert(srcs[q] == srcs0[q]);
                                assert(extras@[q] == extras0[q]);
                            } else if q == pos {
                                assert(srcs[q] == j3 as int);
                                assert(extras@[q] == extra);
                            } else {
                                assert(srcs[q] == srcs0[q - 1]);
                                assert(extras@[q] == extras0[q - 1]);
                            }
                        }
                        assert forall|j2: int|
                            0 <= j2 < j3 + 1 && last_of_id(old_ids, j2) && find_id(
                                preset_provider_ids(),
                                #[trigger] old_ids[j2],
                            ) is None implies exists|q: int|
                                0 <= q < extras@.len() && (#[trigger] extras@[q]).id@
                                    == old_ids[j2] by {
                            if j2 == j3 as int {
                                assert(extras@[pos as int] == extra);
                                assert(extras@[pos as int].id@ == old_ids[j2]);
                            } else {
                                let q0 = choose|q0: int|
                                    0 <= q0 < extras0.len() && (#[trigger] extras0[q0]).id@
                                        == old_ids[j2];
                                if q0 < pos {
                                    assert(extras@[q0] == extras0[q0]);
                                    assert(extras@[q0].id@ == old_ids[j2]);
                                } else {
                                    assert(extras@[q0 + 1] == extras0[q0]);
                                    assert(extras@[q0 + 1].id@ == old_ids[j2]);
                                }
                            }
                        }
                        assert forall|a: int, b: int|
                            #![trigger extras@[a], extras@[b]]
                            0 <= a < b < extras@.len() implies !lex_lt(
                            extras@[b].id@,
                            extras@[a].id@,
                        ) by {
                            if b < pos {
                                assert(extras@[a] == extras0[a] && extras@[b] == extras0[b]);
                            } else if a < pos && b == pos {
                                assert(extras@[a] == extras0[a]);
                                assert(extras@[b] == extra);
                                lemma_lex_asym(extras0[a].id@, extra.id@);
                            } else if a < pos && b > pos {
                                assert(extras@[a] == extras0[a] && extras@[b] == extras0[b - 1]);
                            } else if a == pos {
                                assert(extras@[a] == extra && extras@[b] == extras0[b - 1]);
                                assert(pos < extras0.len());
                                assert(!lex_lt(extras0[pos as int].id@, extra.id@));
                                if b - 1 > pos {
                                    assert(!lex_lt(extras0[b - 1].id@, extras0[pos as int].id@));
                                    lemma_lex_nlt_trans(
                                        extra.id@,
                                        extras0[pos as int].id@,
                                        extras0[b - 1].id@,
                                    );
                                }
                            } else {
                                assert(extras@[a] == extras0[a - 1] && extras@[b] == extras0[b
                                    - 1]);
                            }
                        }
                    }
                } else {
                    proof {
                        if is_preset_id {
                            lemma_find_exists(
                                preset_provider_ids(),
                                old_ids[j3 as int],
                                preset_at,
                            );
                        }
                        assert(dup_later ==> !last_of_id(old_ids, j3 as int));
                    }
                }
                j3 += 1;
            }
            let mut e: usize = 0;
            while e < extras.len()
                invariant
                    e <= extras@.len(),
                    merged@.len() == 6 + e,
                    forall|d: int| 0 <= d < 6 ==> merged@[d].id@ == preset_provider_ids()[d],
                    forall|d: int|
                        0 <= d < 6 ==> merged@[d].provider_type == preset_provider_type(d),
                    forall|d: int|
                        0 <= d < 6 ==> (#[trigger] merged@[d].name)@ == preset_provider_name(d),
                    forall|d: int| 0 <= d < 6 ==> (#[trigger] merged@[d].is_preset) == (d != 5),
                    forall|d: int|
                        0 <= d < 6 ==> (match rfind_id(
                            old_ids,
                            #[trigger] preset_provider_ids()[d],
                        ) {
                            Some(j) => merged@[d].api_key == old(self).providers@[j].api_key,
                            None => true,
                        }),
                    forall|q: int| 0 <= q < e ==> #[trigger] merged@[6 + q] == extras@[q],
                    old_ids == provider_ids(old(self).providers@),
                decreases extras.len() - e,
            {
                let src = &extras[e];
                proof {
                    assert(*src == extras@[e as int]);
                }
                merged.push(
                    ProviderConfig {
                        id: src.id.clone(),
                        name: src.name.clone(),
                        provider_type: src.provider_type,
                        api_base: src.api_base.clone(),
                        api_key: src.api_key.clone(),
                        model: src.model.clone(),
                        is_preset: src.is_preset,
                    },
                );
                proof {
                    assert(merged@[6 + e as int] == extras@[e as int]);
                }
                e += 1;
            }
            self.providers = merged;

            // The list now realizes every saved entry: preset ids stand in
            // the prefix, and each last occurrence of a non-preset id
            // stands, whole, in the extras region.
            proof {
                let fin = self.providers@;
                let old_ps = old(self).providers@;
                assert forall|j: int| 0 <= j < old_ps.len() implies find_id(
                    provider_ids(fin),
                    #[trigger] provider_ids(old_ps)[j],
                ) is Some by {
                    let x = old_ids[j];
                    lemma_find_char(preset_provider_ids(), x);
                    match find_id(preset_provider_ids(), x) {
                        Some(d) => {
                            assert(provider_ids(fin)[d] == fin[d].id@);
                            lemma_find_exists(provider_ids(fin), x, d);
                        }
                        None => {
                            lemma_rfind_exists(old_ids, x, j);
                            lemma_rfind_char(old_ids, x);
                            match rfind_id(old_ids, x) {
                                Some(j2) => {
                                    assert(old_ids[j2] == x);
                                    assert(last_of_id(old_ids, j2));
                                    let q = choose|q: int|
                                        0 <= q < extras@.len() && (#[trigger] extras@[q]).id@
                                            == old_ids[j2];
                                    assert(fin[6 + q] == extras@[q]);
                                    assert(provider_ids(fin)[6 + q] == fin[6 + q].id@);
                                    lemma_find_exists(provider_ids(fin), x, 6 + q);
                                }
                                None => {
                                    assert(false);
                                }
                            }
                        }
                    }
                }
                assert forall|j: int|
                    0 <= j < old_ps.len() && last_of_id(old_ids, j) && find_id(
                        preset_provider_ids(),
                        #[trigger] old_ids[j],
                    ) is None implies exists|d: int|
                        6 <= d < fin.len() && (#[trigger] fin[d]).id@ == old_ids[j]
                            && fin[d].provider_type == old_ps[j].provider_type && fin[d].api_key
                            == old_ps[j].api_key by {
                    let q = choose|q: int|
                        0 <= q < extras@.len() && (#[trigger] extras@[q]).id@ == old_ids[j];
                    assert(provider_ids(old_ps)[srcs[q]] == old_ps[srcs[q]].id@);
                    assert(old_ids[srcs[q]] == extras@[q].id@);
                    if srcs[q] < j {
                        assert(old_ids[j] != old_ids[srcs[q]]);
                        assert(false);
                    } else if srcs[q] > j {
                        assert(old_ids[srcs[q]] != old_ids[j]);
                        assert(false);
                    }
                    assert(srcs[q] == j);
                    assert(extras@[q] == old_ps[j]);
                    assert(fin[6 + q] == extras@[q]);
                    assert(6 <= 6 + q < fin.len() && fin[6 + q].id@ == old_ids[j] && fin[6
                        + q].provider_type == old_ps[j].provider_type && fin[6 + q].api_key
                        == old_ps[j].api_key);
                }
                assert forall|a: int, b: int|
                    #![trigger fin[a], fin[b]]
                    6 <= a < b < fin.len() implies !lex_lt(fin[b].id@, fin[a].id@) by {
                    assert(fin[6 + (a - 6)] == extras@[a - 6]);
                    assert(fin[6 + (b - 6)] == extras@[b - 6]);
                }
            }
        }

        // Fields a provider kind does not use are cleared; ids, kinds and,
        // outside the keyless kind, API keys are untouched.
        let ghost pre_clean = self.providers@;
        let mut cleaned: Vec<ProviderConfig> = Vec::new();
        let mut ci: usize = 0;
        let n2 = self.providers.len();
        while ci < n2
            invariant
                cleaned@.len() == ci,
                ci <= n2 == self.providers@.len(),
                self.providers@.len() >= 6,
                forall|d: int|
                    0 <= d < 6 ==> provider_ids(self.providers@)[d] == preset_provider_ids()[d],
                forall|d: int|
                    0 <= d < 6 ==> self.providers@[d].provider_type == preset_provider_type(d),
                forall|d: int|
                    0 <= d < ci ==> cleaned@[d].id@ == self.providers@[d].id@,
                forall|d: int|
                    0 <= d < ci ==> cleaned@[d].provider_type == self.providers@[d].provider_type,
                forall|d: int| 0 <= d < ci ==> (#[trigger] cleaned@[d].name)
                    == self.providers@[d].name,
                forall|d: int| 0 <= d < ci ==> (#[trigger] cleaned@[d].is_preset)
                    == self.providers@[d].is_preset,
                forall|d: int|
                    0 <= d < ci ==> (self.providers@[d].provider_type != ProviderType::Google
                        ==> cleaned@[d].api_key == self.providers@[d].api_key),
                forall|d: int| 0 <= d < ci ==> kind_fields_clear(#[trigger] cleaned@[d]),
            decreases n2 - ci,
        {
            let src = &self.providers[ci];
            proof {
                assert(*src == self.providers@[ci as int]);
            }
            let mut p = ProviderConfig {
                id: src.id.clone(),
                name: src.name.clone(),
                provider_type: src.provider_type,
                api_base: src.api_base.clone(),
                api_key: src.api_key.clone(),
                model: src.model.clone(),
                is_preset: src.is_preset,
            };
            match p.provider_type {
                ProviderType::Google => {
                    p.api_base = String::new();
                    p.api_key = String::new();
                    p.model = String::new();
                }
                ProviderType::DeepL => {
                    p.model = String::new();
                }
                ProviderType::OpenAI => {}
                ProviderType::Anthropic => {}
            }
            cleaned.push(p);
            ci += 1;
        }
        proof {
            assert forall|d: int| 0 <= d < 6 implies provider_ids(cleaned@)[d]
                == preset_provider_ids()[d] by {
                assert(provider_ids(cleaned@)[d] == cleaned@[d].id@);
                assert(provider_ids(self.providers@)[d] == self.providers@[d].id@);
            }
            // Clearing unused fields moves no entry and changes no id, so
            // what the merge established carries over.
            assert forall|d: int| 0 <= d < cleaned@.len() implies provider_ids(cleaned@)[d]
                == #[trigger] provider_ids(pre_clean)[d] by {
                assert(provider_ids(cleaned@)[d] == cleaned@[d].id@);
                assert(provider_ids(pre_clean)[d] == pre_clean[d].id@);
            }
            assert(provider_ids(cleaned@) =~= provider_ids(pre_clean));
            assert forall|d: int| 0 <= d < 6 implies (#[trigger] cleaned@[d]).name@
                == preset_provider_name(d) && cleaned@[d].is_preset == (d != 5) by {
                assert(cleaned@[d].name == pre_clean[d].name);
                assert(cleaned@[d].is_preset == pre_clean[d].is_preset);
            }
            let old_ps = old(self).providers@;
            assert forall|j: int|
                0 <= j < old_ps.len() && last_of_id(old_ids, j) && find_id(
                    preset_provider_ids(),
                    #[trigger] old_ids[j],
                ) is None implies exists|d: int|
                    6 <= d < cleaned@.len() && (#[trigger] cleaned@[d]).id@ == old_ids[j]
                        && cleaned@[d].provider_type == old_ps[j].provider_type && (
                    old_ps[j].provider_type != ProviderType::Google ==> cleaned@[d].api_key
                        == old_ps[j].api_key) by {
                if old_ps.len() > 0 {
                    let d = choose|d: int|
                        6 <= d < pre_clean.len() && (#[trigger] pre_clean[d]).id@ == old_ids[j]
                            && pre_clean[d].provider_type == old_ps[j].provider_type
                            && pre_clean[d].api_key == old_ps[j].api_key;
                    assert(cleaned@[d].id@ == pre_clean[d].id@);
                    assert(cleaned@[d].provider_type == pre_clean[d].provider_type);
                    assert(6 <= d < cleaned@.len() && cleaned@[d].id@ == old_ids[j]
                        && cleaned@[d].provider_type == old_ps[j].provider_type && (
                    old_ps[j].provider_type != ProviderType::Google ==> cleaned@[d].api_key
                        == old_ps[j].api_key));
                }
            }
            assert forall|a: int, b: int|
                #![trigger cleaned@[a], cleaned@[b]]
                6 <= a < b < cleaned@.len() implies !lex_lt(cleaned@[b].id@, cleaned@[a].id@) by {
                assert(cleaned@[a].id@ == pre_clean[a].id@);
                assert(cleaned@[b].id@ == pre_clean[b].id@);
            }
        }
        self.providers = cleaned;

        // The active id must point at an existing entry.
        let has_active = self.provider_index(self.active_provider_id.as_str()).is_some();
        if !has_active {
            let first_id = self.providers[0].id.clone();
            self.active_provider_id = first_id;
            proof {
                lemma_find_at(provider_ids(self.providers@), self.providers@[0].id@, 0);
            }
        }
    }

    /// Bring a loaded configuration back into shape: providers reconciled,
    /// prompt presets restored when missing, active ids valid.
    pub fn normalize(&mut self)
        ensures
            final(self).providers@.len() >= 6,
            find_id(
                provider_ids(final(self).providers@),
                final(self).active_provider_id@,
            ) is Some,
            forall|d: int|
                0 <= d < 6 ==> provider_ids(final(self).providers@)[d] == preset_provider_ids()[d],
            forall|d: int|
                0 <= d < 6 ==> (#[trigger] final(self).providers@[d]).name@
                    == preset_provider_name(d) && final(self).providers@[d].is_preset == (d != 5),
            forall|d: int|
                1 <= d < 6 ==> (match rfind_id(
                    provider_ids(old(self).providers@),
                    #[trigger] preset_provider_ids()[d],
                ) {
                    Some(j) => final(self).providers@[d].api_key == old(self).providers@[j].api_key,
                    None => true,
                }),
            forall|i: int|
                0 <= i < final(self).providers@.len() ==> kind_fields_clear(
                    #[trigger] final(self).providers@[i],
                ),
            forall|j: int|
                0 <= j < old(self).providers@.len() ==> find_id(
                    provider_ids(final(self).providers@),
                    #[trigger] provider_ids(old(self).providers@)[j],
                ) is Some,
            forall|j: int|
                0 <= j < old(self).providers@.len() && last_of_id(
                    provider_ids(old(self).providers@),
                    j,
                ) && find_id(
                    preset_provider_ids(),
                    #[trigger] provider_ids(old(self).providers@)[j],
                ) is None ==> exists|d: int|
                    6 <= d < final(self).providers@.len() && (
                    #[trigger] final(self).providers@[d]).id@ == provider_ids(
                        old(self).providers@,
                    )[j] && final(self).providers@[d].provider_type
                        == old(self).providers@[j].provider_type && (
                    old(self).providers@[j].provider_type != ProviderType::Google
                        ==> final(self).providers@[d].api_key == old(self).providers@[j].api_key),
            forall|a: int, b: int|
                #![trigger final(self).providers@[a], final(self).providers@[b]]
                6 <= a < b < final(self).providers@.len() ==> !lex_lt(
                    final(self).providers@[b].id@,
                    final(self).providers@[a].id@,
                ),
            final(self).prompt_presets@.len() > 0,
            find_id(
                preset_ids(final(self).prompt_presets@),
                final(self).active_prompt_preset_id@,
            ) is Some,
    {
        self.normalize_providers();
        if self.prompt_presets.len() == 0 {
            self.prompt_presets = default_prompt_presets();
        }
        let has_active = self.prompt_preset_index(self.active_prompt_preset_id.as_str()).is_some();
        if !has_active {
            let first_id = self.prompt_presets[0].id.clone();
            self.active_prompt_preset_id = first_id;
            proof {
                lemma_find_at(preset_ids(self.prompt_presets@), self.prompt_presets@[0].id@, 0);
            }
        }
    }
}

} // verus!
