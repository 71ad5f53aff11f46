use nanotrans::clipboard::should_translate;
use nanotrans::config::Config;
use nanotrans::keycodes::{
    common_key_name, is_modifier_key, is_modifier_keycode, keycode_to_name,
};
use nanotrans::keys::{key_display, KeyName};
use nanotrans::translate::{
    build_translation_prompts, determine_target_lang, get_language_name, render_prompt_template,
    replace_all, TranslateRequest,
};
use nanotrans::tray::{menu_action_for_id, MenuAction, MENU_EXIT, MENU_SETTINGS};

#[test]
fn auto_detection_picks_the_other_language() {
    let config = Config::default();
    assert!(config.auto_detect);
    assert_eq!(determine_target_lang(&config, "你好，世界"), "en");
    assert_eq!(determine_target_lang(&config, "こんにちは"), "en");
    assert_eq!(determine_target_lang(&config, "hello world"), "zh");
    assert_eq!(determine_target_lang(&config, ""), "zh");

    let mut fixed = Config::default();
    fixed.auto_detect = false;
    fixed.target_lang = String::from("fr");
    assert_eq!(determine_target_lang(&fixed, "你好"), "fr");
}

#[test]
fn language_names_cover_the_table_and_fall_back() {
    assert_eq!(get_language_name("zh"), "简体中文");
    assert_eq!(get_language_name("ZH-CN"), "简体中文");
    assert_eq!(get_language_name("zh-tw"), "繁體中文");
    assert_eq!(get_language_name("en"), "English");
    assert_eq!(get_language_name("ja"), "日本語");
    assert_eq!(get_language_name("fr"), "Français");
    assert_eq!(get_language_name("xx"), "xx");
    assert_eq!(get_language_name("Klingon"), "Klingon");
}

#[test]
fn template_replacement_is_exact() {
    assert_eq!(replace_all("a{{x}}b{{x}}c", "{{x}}", "1"), "a1b1c");
    assert_eq!(replace_all("aaa", "aa", "b"), "ba");
    assert_eq!(replace_all("abc", "", "z"), "abc");
    assert_eq!(
        render_prompt_template(
            "to {{target_lang_name}} ({{target_lang_code}}): {{text}} [{{source_lang_code}}]",
            "English",
            "en",
            "bonjour",
            "fr",
        ),
        "to English (en): bonjour [fr]"
    );
}

#[test]
fn prompts_render_the_active_preset() {
    let mut config = Config::default();
    if let Some(i) = config.prompt_preset_index("default") {
        config.prompt_presets[i].system_template = String::from("sys {{target_lang_name}}");
        config.prompt_presets[i].user_template =
            String::from("user {{target_lang_code}}: {{text}}");
    }
    let request = TranslateRequest {
        text: String::from("hello"),
        source_lang: None,
        target_lang: String::from("zh"),
    };
    let (system, user) = build_translation_prompts(&config, &request);
    assert_eq!(system, "sys 简体中文");
    assert_eq!(user, "user zh: hello");
}

#[test]
fn blank_templates_fall_back_to_the_built_in_prompts() {
    let mut config = Config::default();
    if let Some(i) = config.prompt_preset_index("default") {
        config.prompt_presets[i].system_template = String::from("   ");
        config.prompt_presets[i].user_template = String::new();
    }
    let request = TranslateRequest {
        text: String::from("hello"),
        source_lang: None,
        target_lang: String::from("en"),
    };
    let (system, user) = build_translation_prompts(&config, &request);
    assert!(system.starts_with("你是一位专业的 English"));
    assert_eq!(user, "翻译成 English（仅输出翻译）：\n\nhello");
}

#[test]
fn selection_is_translated_only_when_new_and_nonempty() {
    assert!(should_translate(&None, "bonjour"));
    assert!(!should_translate(&None, ""));
    assert!(!should_translate(&Some(String::from("same")), "same"));
    assert!(should_translate(&Some(String::from("old")), "new"));
}

#[test]
fn menu_ids_resolve_to_their_actions() {
    assert_eq!(menu_action_for_id(MENU_SETTINGS), MenuAction::OpenSettings);
    assert_eq!(menu_action_for_id(MENU_EXIT), MenuAction::Exit);
    assert_eq!(menu_action_for_id("other"), MenuAction::NoAction);
}

#[test]
fn raw_code_tables_cover_their_keys() {
    assert_eq!(common_key_name(0x51), Some(KeyName::Q));
    assert_eq!(common_key_name(0x70), Some(KeyName::F1));
    assert_eq!(common_key_name(0x20), Some(KeyName::Space));
    assert_eq!(common_key_name(0xBA), None);
    assert!(is_modifier_key(0x11));
    assert!(is_modifier_key(0x5B));
    assert!(!is_modifier_key(0x51));

    assert_eq!(keycode_to_name(12), Some(KeyName::Q));
    assert_eq!(keycode_to_name(53), Some(KeyName::Escape));
    assert_eq!(keycode_to_name(200), None);
    assert!(is_modifier_keycode(54));
    assert!(!is_modifier_keycode(12));

    assert_eq!(key_display(KeyName::PageDown), "PageDown");
}
