use nanotrans::config::{
    default_active_prompt_preset_id, default_prompt_presets, default_providers, Config,
    ProviderConfig, ProviderType, UILanguage,
};
use nanotrans::i18n::{index_to_language, language_to_index, Lang, LangState};

#[test]
fn default_config_shape() {
    let config = Config::default();
    assert_eq!(config.hotkey, "Alt+Q");
    assert!(!config.hotkey_log_enabled);
    assert_eq!(config.target_lang, "zh");
    assert_eq!(config.source_lang, "");
    assert!(config.auto_detect);
    assert_eq!(config.active_provider_id, "google");
    assert_eq!(config.providers.len(), 6);
    assert_eq!(config.active_prompt_preset_id, "default");
    assert_eq!(config.prompt_presets.len(), 2);
    assert_eq!(config.ui_language, UILanguage::Auto);
    assert_eq!(default_active_prompt_preset_id(), "default");
    assert_eq!(default_providers().len(), 6);
    assert_eq!(default_prompt_presets().len(), 2);
}

#[test]
fn provider_lookups() {
    let config = Config::default();
    assert_eq!(config.provider_index("google"), Some(0));
    assert_eq!(config.provider_index("deepl"), Some(1));
    assert_eq!(config.provider_index("custom"), Some(5));
    assert_eq!(config.provider_index("nope"), None);
    assert_eq!(config.active_provider().unwrap().id, "google");
    assert_eq!(
        config.get_provider("anthropic").unwrap().provider_type,
        ProviderType::Anthropic
    );
    assert!(config.get_provider("nope").is_none());
}

#[test]
fn preset_lookups() {
    let config = Config::default();
    assert_eq!(config.prompt_preset_index("default"), Some(0));
    assert_eq!(config.prompt_preset_index("polish"), Some(1));
    assert_eq!(config.prompt_preset_index("nope"), None);
    assert_eq!(config.active_prompt_preset().unwrap().id, "default");
    assert!(config.get_prompt_preset("nope").is_none());
}

#[test]
fn normalize_restores_empty_lists_and_active_ids() {
    let mut config = Config::default();
    config.providers = Vec::new();
    config.prompt_presets = Vec::new();
    config.active_provider_id = String::from("gone");
    config.active_prompt_preset_id = String::from("gone");
    config.normalize();
    assert_eq!(config.providers.len(), 6);
    assert_eq!(config.providers[0].id, "google");
    assert_eq!(config.active_provider_id, "google");
    assert_eq!(config.prompt_presets.len(), 2);
    assert_eq!(config.active_prompt_preset_id, "default");
}

#[test]
fn normalize_keeps_saved_keys_and_restores_preset_fields() {
    let mut config = Config::default();
    // A saved entry under a preset id keeps its key but gets the preset's
    // name and kind back; a blank base is refilled.
    config.providers = vec![ProviderConfig {
        id: String::from("deepl"),
        name: String::from("renamed by hand"),
        provider_type: ProviderType::Google,
        api_base: String::from("   "),
        api_key: String::from("SECRET-REDACTED"),
        model: String::from("stale"),
        is_preset: false,
    }];
    config.normalize();
    let deepl = config.get_provider("deepl").unwrap();
    assert_eq!(deepl.name, "DeepL");
    assert_eq!(deepl.provider_type, ProviderType::DeepL);
    assert!(deepl.is_preset);
    assert_eq!(deepl.api_key, "SECRET-REDACTED");
    assert_eq!(deepl.api_base, "https://api-free.deepl.com/v2");
    // DeepL entries hold no model.
    assert_eq!(deepl.model, "");
}

#[test]
fn normalize_keeps_unknown_entries_in_id_order() {
    let mut config = Config::default();
    let extra = |id: &str| ProviderConfig {
        id: String::from(id),
        name: String::from(id),
        provider_type: ProviderType::OpenAI,
        api_base: String::from("https://example.test/v1"),
        api_key: String::new(),
        model: String::from("m"),
        is_preset: false,
    };
    config.providers = vec![extra("zeta"), extra("beta")];
    config.normalize();
    assert_eq!(config.providers.len(), 8);
    assert_eq!(config.providers[6].id, "beta");
    assert_eq!(config.providers[7].id, "zeta");
}

#[test]
fn normalize_clears_fields_a_kind_does_not_use() {
    let mut config = Config::default();
    config.providers[0].api_key = String::from("SECRET-REDACTED");
    config.providers[0].model = String::from("m");
    config.normalize();
    let google = config.get_provider("google").unwrap();
    assert_eq!(google.api_key, "");
    assert_eq!(google.model, "");
}

#[test]
fn language_index_round_trip() {
    assert_eq!(language_to_index(&UILanguage::Auto), 0);
    assert_eq!(language_to_index(&UILanguage::En), 1);
    assert_eq!(language_to_index(&UILanguage::Zh), 2);
    for ui in [UILanguage::Auto, UILanguage::En, UILanguage::Zh] {
        assert_eq!(index_to_language(language_to_index(&ui)), ui);
    }
    assert_eq!(index_to_language(7), UILanguage::Auto);
}

#[test]
fn language_state_follows_config_and_system() {
    let mut state = LangState::new();
    assert_eq!(state.current_language(), Lang::En);
    state.init(&UILanguage::Zh, Lang::En);
    assert_eq!(state.current_language(), Lang::Zh);
    state.init(&UILanguage::Auto, Lang::Zh);
    assert_eq!(state.current_language(), Lang::Zh);
    state.set_language(Lang::En);
    assert_eq!(state.current_language(), Lang::En);
    assert_eq!(state.t().settings_title, "Settings");
    state.set_language(Lang::Zh);
    assert_eq!(state.t().settings_title, "设置");
}
