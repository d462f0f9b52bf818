use ferrous_opencc::config::BuiltinConfig;
use ferrous_opencc::OpenCC;
use handy::chinese::{
    convert_with, maybe_convert_chinese_variant, variant_for, ChineseVariant,
};
use handy::settings::{AppSettings, StringTable};

fn speaking(language: &str) -> AppSettings {
    AppSettings {
        selected_language: language.to_string(),
        restore_focus_before_paste: false,
        active_post_process_provider: None,
        post_process_models: StringTable::new(),
        post_process_api_keys: StringTable::new(),
        post_process_selected_prompt_id: None,
        post_process_prompts: vec![],
        apple_intelligence_provider_id: String::new(),
    }
}

#[test]
fn languages_name_variants() {
    assert_eq!(variant_for("zh-Hans"), Some(ChineseVariant::Simplified));
    assert_eq!(variant_for("zh-Hant"), Some(ChineseVariant::Traditional));
    assert_eq!(variant_for("zh"), None);
    assert_eq!(variant_for("zh-hans"), None);
    assert_eq!(variant_for(""), None);
}

#[test]
fn traditional_text_becomes_simplified() {
    assert_eq!(
        maybe_convert_chinese_variant(&speaking("zh-Hans"), "開放中文轉換"),
        Some("开放中文转换".to_string())
    );
}

#[test]
fn simplified_text_becomes_traditional_with_taiwanese_phrases() {
    assert_eq!(
        maybe_convert_chinese_variant(&speaking("zh-Hant"), "开放中文转换"),
        Some("開放中文轉換".to_string())
    );
    assert_eq!(
        maybe_convert_chinese_variant(&speaking("zh-Hant"), "鼠标"),
        Some("滑鼠".to_string())
    );
}

#[test]
fn other_languages_are_left_alone() {
    for language in ["en", "auto", "ja", "", "zh"] {
        assert_eq!(maybe_convert_chinese_variant(&speaking(language), "開放中文"), None);
    }
}

#[test]
fn text_without_chinese_is_kept() {
    assert_eq!(
        maybe_convert_chinese_variant(&speaking("zh-Hans"), "plain words"),
        Some("plain words".to_string())
    );
    assert_eq!(
        maybe_convert_chinese_variant(&speaking("zh-Hant"), ""),
        Some(String::new())
    );
}

#[test]
fn a_converter_that_is_there_is_used() {
    assert_eq!(
        convert_with(OpenCC::from_config(BuiltinConfig::Tw2sp), "滑鼠"),
        Some("鼠标".to_string())
    );
}

#[test]
fn a_converter_of_another_configuration_goes_its_own_way() {
    assert_eq!(
        convert_with(OpenCC::from_config(BuiltinConfig::S2t), "鼠标"),
        Some("鼠標".to_string())
    );
}

#[test]
fn without_a_converter_nothing_is_converted() {
    let missing = OpenCC::new("/nowhere/missing.json");
    assert_eq!(convert_with(missing, "滑鼠"), None);
}
