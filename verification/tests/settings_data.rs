//! Settings, service configurations, and the history record types.

use swiftlingo::records::{ListEntry, Translation, TranslationList};
use swiftlingo::services::{ServiceConfig, TranslationService};
use swiftlingo::settings::Settings;

#[test]
fn config_names() {
    assert_eq!(TranslationService::GoogleBeta.config_name(), "GoogleBeta");
    assert_eq!(TranslationService::GoogleOfficial.config_name(), "GoogleOfficial");
    assert_eq!(TranslationService::LibreTranslate.config_name(), "LibreTranslate");
    assert_eq!(TranslationService::Bing.config_name(), "Bing");
    assert_eq!(TranslationService::DeepL.config_name(), "DeepL");
}

#[test]
fn all_services_lists_the_five() {
    assert_eq!(
        TranslationService::all_services(),
        vec![
            TranslationService::GoogleBeta,
            TranslationService::GoogleOfficial,
            TranslationService::LibreTranslate,
            TranslationService::Bing,
            TranslationService::DeepL,
        ]
    );
}

#[test]
fn service_config_default_and_clone() {
    let c = ServiceConfig::default();
    assert_eq!(c.api_key, None);
    assert_eq!(c.endpoint, None);
    assert_eq!(c.timeout_seconds, Some(5));
    let custom = ServiceConfig {
        api_key: Some(String::from("test-key")),
        endpoint: Some(String::from("https://example.invalid")),
        timeout_seconds: None,
    };
    let copy = custom.clone();
    assert_eq!(copy.api_key, custom.api_key);
    assert_eq!(copy.endpoint, custom.endpoint);
    assert_eq!(copy.timeout_seconds, None);
}

#[test]
fn settings_default_values() {
    let s = Settings::default();
    assert!(!s.dark_mode);
    assert_eq!(s.default_source_lang, "auto");
    assert_eq!(s.default_target_lang, "en");
    assert_eq!(s.window_width, 800);
    assert_eq!(s.window_height, 500);
    assert_eq!(s.window_x, None);
    assert_eq!(s.window_y, None);
    assert!(!s.startup_minimized);
    assert_eq!(s.active_service, TranslationService::GoogleBeta);
    assert_eq!(s.max_history_entries, 100);
    assert!(s.auto_save_history);
    assert_eq!(s.service_configs.len(), 5);
}

#[test]
fn settings_default_service_configs() {
    let s = Settings::default();
    for service in TranslationService::all_services() {
        let c = s.get_service_config(&service).expect("every service has a default");
        assert_eq!(c.api_key, None);
        assert_eq!(c.timeout_seconds, Some(5));
        if service == TranslationService::LibreTranslate {
            assert_eq!(c.endpoint.as_deref(), Some("https://libretranslate.com/translate"));
        } else {
            assert_eq!(c.endpoint, None);
        }
    }
}

#[test]
fn update_service_config_replaces() {
    let mut s = Settings::default();
    let c = ServiceConfig {
        api_key: Some(String::from("test-key")),
        endpoint: None,
        timeout_seconds: Some(9),
    };
    s.update_service_config("DeepL", c);
    assert_eq!(s.service_configs.len(), 5, "replaced, not appended");
    let got = s.get_service_config(&TranslationService::DeepL).unwrap();
    assert_eq!(got.timeout_seconds, Some(9));
    assert!(got.api_key.is_some());
    let other = s.get_service_config(&TranslationService::Bing).unwrap();
    assert_eq!(other.timeout_seconds, Some(5), "other services untouched");
}

#[test]
fn update_service_config_adds_fresh_name() {
    let mut s = Settings::default();
    let c = ServiceConfig { api_key: None, endpoint: None, timeout_seconds: Some(1) };
    s.update_service_config("Altavista", c);
    assert_eq!(s.service_configs.len(), 6);
    assert_eq!(s.service_configs[5].0, "Altavista");
    assert_eq!(s.service_configs[5].1.timeout_seconds, Some(1));
}

#[test]
fn window_geometry_update() {
    let mut s = Settings::default();
    s.update_window_geometry(12, 34, 1024, 768);
    assert_eq!(s.window_x, Some(12));
    assert_eq!(s.window_y, Some(34));
    assert_eq!(s.window_width, 1024);
    assert_eq!(s.window_height, 768);
    assert_eq!(s.default_target_lang, "en", "other fields untouched");
}

#[test]
fn record_construction() {
    let t = Translation {
        id: 1,
        timestamp: String::from("2024-01-01T00:00:00+00:00"),
        source_text: String::from("Hallo"),
        source_lang: String::from("de"),
        target_text: String::from("Hello"),
        target_lang: String::from("en"),
    };
    let copy = t.clone();
    assert_eq!(copy.id, 1);
    assert_eq!(copy.source_text, "Hallo");
    let list = TranslationList {
        id: 2,
        name: String::from("Vocabulary"),
        created_at: String::from("2024-01-01T00:00:00+00:00"),
    };
    assert_eq!(list.name, "Vocabulary");
    let entry = ListEntry { id: 3, list_id: 2, translation_id: 1 };
    assert_eq!(entry, ListEntry { id: 3, list_id: 2, translation_id: 1 });
}
