//! UI language selection: resolving the configured choice against the
//! system language, and the table of translatable UI strings.

use vstd::prelude::*;

use crate::config::UILanguage;

verus! {

/// A language the UI can display.
#[derive(Clone, Copy, Debug, PartialEq, Eq, Structural)]
pub enum Lang {
    En,
    Zh,
}

/// All translatable UI strings.
pub struct Texts {
    pub settings_title: &'static str,
    pub global_hotkey: &'static str,
    pub hotkey_placeholder: &'static str,
    pub hotkey_recording: &'static str,
    pub translation_provider: &'static str,
    pub provider_settings: &'static str,
    pub google_no_config: &'static str,
    pub deepl_settings: &'static str,
    pub api_key: &'static str,
    pub api_key_placeholder: &'static str,
    pub deepl_hint: &'static str,
    pub api_settings: &'static str,
    pub api_base_url: &'static str,
    pub model: &'static str,
    pub model_placeholder: &'static str,
    pub prompt_settings: &'static str,
    pub prompt_preset: &'static str,
    pub prompt_add: &'static str,
    pub prompt_delete: &'static str,
    pub prompt_name: &'static str,
    pub prompt_system: &'static str,
    pub prompt_user: &'static str,
    pub prompt_vars: &'static str,
    pub cancel: &'static str,
    pub save: &'static str,
    pub ui_language: &'static str,
    pub hotkey_log_title: &'static str,
    pub hotkey_log_enable: &'static str,
    pub hotkey_log_hint: &'static str,
    pub translating: &'static str,
    pub copy: &'static str,
    pub apply: &'static str,
    pub hint_apply: &'static str,
    pub tray_settings: &'static str,
    pub tray_exit: &'static str,
}

/// Whether a table holds exactly the English UI strings.
pub open spec fn texts_are_en(r: Texts) -> bool {
    &&& r.settings_title@ == "Settings"@
    &&& r.global_hotkey@ == "Global Hotkey"@
    &&& r.hotkey_placeholder@ == "Click and press keys..."@
    &&& r.hotkey_recording@ == "Press hotkey..."@
    &&& r.translation_provider@ == "Translation Provider"@
    &&& r.provider_settings@ == "Provider Settings"@
    &&& r.google_no_config@ == "Google Translate - no config needed"@
    &&& r.deepl_settings@ == "DeepL Settings"@
    &&& r.api_key@ == "API Key"@
    &&& r.api_key_placeholder@ == "Enter your API key"@
    &&& r.deepl_hint@ == "Get your free API key at deepl.com/pro-api"@
    &&& r.api_settings@ == "API Settings"@
    &&& r.api_base_url@ == "API Base URL"@
    &&& r.model@ == "Model"@
    &&& r.model_placeholder@ == "e.g., gpt-4o-mini"@
    &&& r.prompt_settings@ == "Prompt Settings"@
    &&& r.prompt_preset@ == "Preset"@
    &&& r.prompt_add@ == "Add"@
    &&& r.prompt_delete@ == "Delete"@
    &&& r.prompt_name@ == "Preset Name"@
    &&& r.prompt_system@ == "System Template"@
    &&& r.prompt_user@ == "User Template"@
    &&& r.prompt_vars@ == "Vars: {{target_lang_name}} {{target_lang_code}} {{text}}"@
    &&& r.cancel@ == "Cancel"@
    &&& r.save@ == "Save"@
    &&& r.ui_language@ == "UI Language"@
    &&& r.hotkey_log_title@ == "Local Logs"@
    &&& r.hotkey_log_enable@ == "Enable hotkey log"@
    &&& r.hotkey_log_hint@ == "Write hotkey debug logs to a local file"@
    &&& r.translating@ == "Translating..."@
    &&& r.copy@ == "Copy"@
    &&& r.apply@ == "Apply"@
    &&& r.hint_apply@ == "Click result or press Enter to apply"@
    &&& r.tray_settings@ == "Settings"@
    &&& r.tray_exit@ == "Exit"@
}

/// Whether a table holds exactly the Chinese UI strings.
pub open spec fn texts_are_zh(r: Texts) -> bool {
    &&& r.settings_title@ == "设置"@
    &&& r.global_hotkey@ == "全局快捷键"@
    &&& r.hotkey_placeholder@ == "点击后按下快捷键..."@
    &&& r.hotkey_recording@ == "请按下快捷键..."@
    &&& r.translation_provider@ == "翻译服务"@
    &&& r.provider_settings@ == "服务设置"@
    &&& r.google_no_config@ == "Google 翻译 - 无需配置"@
    &&& r.deepl_settings@ == "DeepL 设置"@
    &&& r.api_key@ == "API 密钥"@
    &&& r.api_key_placeholder@ == "输入您的 API 密钥"@
    &&& r.deepl_hint@ == "在 deepl.com/pro-api 获取免费密钥"@
    &&& r.api_settings@ == "API 设置"@
    &&& r.api_base_url@ == "API 地址"@
    &&& r.model@ == "模型"@
    &&& r.model_placeholder@ == "例如 gpt-4o-mini"@
    &&& r.prompt_settings@ == "提示词设置"@
    &&& r.prompt_preset@ == "预设"@
    &&& r.prompt_add@ == "新增"@
    &&& r.prompt_delete@ == "删除"@
    &&& r.prompt_name@ == "预设名称"@
    &&& r.prompt_system@ == "System 模板"@
    &&& r.prompt_user@ == "User 模板"@
    &&& r.prompt_vars@ == "可用变量：{{target_lang_name}} {{target_lang_code}} {{text}}"@
    &&& r.cancel@ == "取消"@
    &&& r.save@ == "保存"@
    &&& r.ui_language@ == "界面语言"@
    &&& r.hotkey_log_title@ == "本地日志"@
    &&& r.hotkey_log_enable@ == "启用热键日志"@
    &&& r.hotkey_log_hint@ == "仅写入本地调试日志，不会上报"@
    &&& r.translating@ == "翻译中..."@
    &&& r.copy@ == "复制"@
    &&& r.apply@ == "应用"@
    &&& r.hint_apply@ == "点击结果或按回车应用"@
    &&& r.tray_settings@ == "设置"@
    &&& r.tray_exit@ == "退出"@
}

/// Which language a configured choice resolves to, given what the system
/// reports.
pub open spec fn resolve_language(ui: UILanguage, system: Lang) -> Lang {
    match ui {
        UILanguage::En => Lang::En,
        UILanguage::Zh => Lang::Zh,
        UILanguage::Auto => system,
    }
}

/// The position a language choice takes in the UI's selector.
pub open spec fn spec_language_index(ui: UILanguage) -> int {
    match ui {
        UILanguage::Auto => 0,
        UILanguage::En => 1,
        UILanguage::Zh => 2,
    }
}

/// The language choice a selector position names; unknown positions fall
/// back to following the system.
pub open spec fn spec_index_language(index: int) -> UILanguage {
    if index == 1 {
        UILanguage::En
    } else if index == 2 {
        UILanguage::Zh
    } else {
        UILanguage::Auto
    }
}

/// A language choice survives the trip through its selector position.
pub proof fn lemma_language_index_roundtrip(ui: UILanguage)
    ensures
        spec_index_language(spec_language_index(ui)) == ui,
{
}

/// Selector position of a language choice.
pub fn language_to_index(lang: &UILanguage) -> (r: i32)
    ensures
        r == spec_language_index(*lang),
{
    match lang {
        UILanguage::Auto => 0,
        UILanguage::En => 1,
        UILanguage::Zh => 2,
    }
}

/// Language choice of a selector position.
pub fn index_to_language(index: i32) -> (r: UILanguage)
    ensures
        r == spec_index_language(index as int),
{
    if index == 1 {
        UILanguage::En
    } else if index == 2 {
        UILanguage::Zh
    } else {
        UILanguage::Auto
    }
}

/// The current UI language, owned by whoever drives the UI.
pub struct LangState {
    current: Lang,
}

impl View for LangState {
    type V = Lang;

    closed spec fn view(&self) -> Lang {
        self.current
    }
}

impl LangState {
    /// English, until told otherwise.
    pub fn new() -> (r: LangState)
        ensures
            r@ == Lang::En,
    {
        LangState { current: Lang::En }
    }

    /// Resolve the configured choice against the detected system language.
    pub fn init(&mut self, ui_lang: &UILanguage, system: Lang)
        ensures
            final(self)@ == resolve_language(*ui_lang, system),
    {
        match ui_lang {
            UILanguage::En => {
                self.current = Lang::En;
            }
            UILanguage::Zh => {
                self.current = Lang::Zh;
            }
            UILanguage::Auto => {
                self.current = system;
            }
        }
    }

    /// Switch languages.
    pub fn set_language(&mut self, lang: Lang)
        ensures
            final(self)@ == lang,
    {
        self.current = lang;
    }

    /// The language currently shown.
    pub fn current_language(&self) -> (r: Lang)
        ensures
            r == self@,
    {
        self.current
    }

    /// The UI strings of the current language: the full English table or
    /// the full Chinese table, by the current language.
    pub fn t(&self) -> (r: Texts)
        ensures
            self@ == Lang::En ==> texts_are_en(r),
            self@ == Lang::Zh ==> texts_are_zh(r),
    {
        match self.current {
            Lang::En => Texts {
                settings_title: "Settings",
                global_hotkey: "Global Hotkey",
                hotkey_placeholder: "Click and press keys...",
                hotkey_recording: "Press hotkey...",
                translation_provider: "Translation Provider",
                provider_settings: "Provider Settings",
                google_no_config: "Google Translate - no config needed",
                deepl_settings: "DeepL Settings",
                api_key: "API Key",
                api_key_placeholder: "Enter your API key",
                deepl_hint: "Get your free API key at deepl.com/pro-api",
                api_settings: "API Settings",
                api_base_url: "API Base URL",
                model: "Model",
                model_placeholder: "e.g., gpt-4o-mini",
                prompt_settings: "Prompt Settings",
                prompt_preset: "Preset",
                prompt_add: "Add",
                prompt_delete: "Delete",
                prompt_name: "Preset Name",
                prompt_system: "System Template",
                prompt_user: "User Template",
                prompt_vars: "Vars: {{target_lang_name}} {{target_lang_code}} {{text}}",
                cancel: "Cancel",
                save: "Save",
                ui_language: "UI Language",
                hotkey_log_title: "Local Logs",
                hotkey_log_enable: "Enable hotkey log",
                hotkey_log_hint: "Write hotkey debug logs to a local file",
                translating: "Translating...",
                copy: "Copy",
                apply: "Apply",
                hint_apply: "Click result or press Enter to apply",
                tray_settings: "Settings",
                tray_exit: "Exit",
            },
            Lang::Zh => Texts {
                settings_title: "设置",
                global_hotkey: "全局快捷键",
                hotkey_placeholder: "点击后按下快捷键...",
                hotkey_recording: "请按下快捷键...",
                translation_provider: "翻译服务",
                provider_settings: "服务设置",
                google_no_config: "Google 翻译 - 无需配置",
                deepl_settings: "DeepL 设置",
                api_key: "API 密钥",
                api_key_placeholder: "输入您的 API 密钥",
                deepl_hint: "在 deepl.com/pro-api 获取免费密钥",
                api_settings: "API 设置",
                api_base_url: "API 地址",
                model: "模型",
                model_placeholder: "例如 gpt-4o-mini",
                prompt_settings: "提示词设置",
                prompt_preset: "预设",
                prompt_add: "新增",
                prompt_delete: "删除",
                prompt_name: "预设名称",
                prompt_system: "System 模板",
                prompt_user: "User 模板",
                prompt_vars: "可用变量：{{target_lang_name}} {{target_lang_code}} {{text}}",
                cancel: "取消",
                save: "保存",
                ui_language: "界面语言",
                hotkey_log_title: "本地日志",
                hotkey_log_enable: "启用热键日志",
                hotkey_log_hint: "仅写入本地调试日志，不会上报",
                translating: "翻译中...",
                copy: "复制",
                apply: "应用",
                hint_apply: "点击结果或按回车应用",
                tray_settings: "设置",
                tray_exit: "退出",
            },
        }
    }
}

} // verus!
