use mouse_config::command::CommandWrapper;
use mouse_config::error::LoadError;
use mouse_config::modifiers::ModifiersState;
use mouse_config::pattern::PatternError;
use mouse_config::raw::{Entry, RawValue};
use mouse_config::report::Field;
use mouse_config::url::{Platform, Url};

fn url_text(s: &str) -> RawValue {
    RawValue::Text(s.to_string())
}

fn url_entry(key: &str, value: RawValue) -> Entry {
    Entry::new(key, value)
}

#[test]
fn default_url_settings() {
    let url = Url::default_for(Platform::Unix);
    assert_eq!(url.launcher, Some(CommandWrapper::Just("xdg-open".to_string())));
    assert_eq!(url.mods(), ModifiersState::default());
    assert_eq!(url.url_pat, None);
    assert_eq!(
        Url::default_for(Platform::Apple).launcher,
        Some(CommandWrapper::Just("open".to_string()))
    );
    assert_eq!(
        Url::default_for(Platform::Windows).launcher,
        Some(CommandWrapper::Just("explorer".to_string()))
    );
}

#[test]
fn empty_mapping_gives_default_url_settings() {
    let raw = RawValue::Mapping(vec![]);
    let mut log = Vec::new();
    assert_eq!(Url::from_raw(&raw, Platform::Unix, &mut log), Ok(Url::default_for(Platform::Unix)));
    assert!(log.is_empty());
}

#[test]
fn all_url_settings_are_read() {
    let raw = RawValue::Mapping(vec![
        url_entry("launcher", url_text("firefox")),
        url_entry("modifiers", url_text("Control|Shift")),
        url_entry("url_pattern", url_text(r"https?://\S+")),
    ]);
    let mut log = Vec::new();
    let url = Url::from_raw(&raw, Platform::Unix, &mut log).unwrap();
    assert_eq!(url.launcher, Some(CommandWrapper::Just("firefox".to_string())));
    assert_eq!(url.mods(), ModifiersState { shift: true, ctrl: true, alt: false, logo: false });
    assert_eq!(url.url_pat.unwrap().as_str(), r"https?://\S+");
    assert!(log.is_empty());
}

#[test]
fn empty_pattern_value_means_no_pattern() {
    let raw = RawValue::Mapping(vec![url_entry("url_pattern", RawValue::Null)]);
    let mut log = Vec::new();
    let url = Url::from_raw(&raw, Platform::Unix, &mut log).unwrap();
    assert_eq!(url.url_pat, None);
}

#[test]
fn invalid_pattern_fails_the_load() {
    let raw = RawValue::Mapping(vec![
        url_entry("launcher", url_text("firefox")),
        url_entry("url_pattern", url_text("(")),
    ]);
    let mut log = Vec::new();
    let loaded = Url::from_raw(&raw, Platform::Unix, &mut log);
    assert!(matches!(loaded, Err(LoadError::Pattern(PatternError::Invalid { .. }))));
}

#[test]
fn pattern_that_is_no_text_fails_the_load() {
    let raw = RawValue::Mapping(vec![url_entry("url_pattern", RawValue::Integer(4))]);
    let mut log = Vec::new();
    assert_eq!(
        Url::from_raw(&raw, Platform::Unix, &mut log),
        Err(LoadError::Pattern(PatternError::NotText))
    );
}

#[test]
fn url_settings_from_a_value_that_is_no_mapping_are_refused() {
    let raw = url_text("none");
    let mut log = Vec::new();
    assert_eq!(Url::from_raw(&raw, Platform::Unix, &mut log), Err(LoadError::NotMapping));
    assert!(log.is_empty());
}

#[test]
fn malformed_url_fields_fall_back_one_by_one() {
    let raw = RawValue::Mapping(vec![
        url_entry("launcher", RawValue::Integer(1)),
        url_entry("modifiers", url_text("Hyper")),
        url_entry("url_pattern", url_text("a+")),
    ]);
    let mut log = Vec::new();
    let url = Url::from_raw(&raw, Platform::Windows, &mut log).unwrap();
    assert_eq!(url.launcher, Some(CommandWrapper::Just("explorer".to_string())));
    assert_eq!(url.mods(), ModifiersState::default());
    assert_eq!(url.url_pat.unwrap().as_str(), "a+");
    assert_eq!(log.len(), 2);
    assert_eq!(log[0].field, Field::Launcher);
    assert_eq!(log[1].field, Field::Modifiers);
}

#[test]
fn warnings_come_before_the_pattern_fails() {
    let raw = RawValue::Mapping(vec![
        url_entry("url_pattern", url_text("(")),
        url_entry("launcher", RawValue::Integer(1)),
    ]);
    let mut log = Vec::new();
    assert!(Url::from_raw(&raw, Platform::Unix, &mut log).is_err());
    assert_eq!(log.len(), 1);
    assert_eq!(log[0].field, Field::Launcher);
}

#[test]
fn launcher_switched_off_leaves_the_rest() {
    let raw = RawValue::Mapping(vec![
        url_entry("launcher", url_text("NONE")),
        url_entry("modifiers", url_text("Alt")),
    ]);
    let mut log = Vec::new();
    let url = Url::from_raw(&raw, Platform::Unix, &mut log).unwrap();
    assert_eq!(url.launcher, None);
    assert_eq!(url.mods(), ModifiersState { shift: false, ctrl: false, alt: true, logo: false });
    assert!(log.is_empty());
}
