use mouse_config::click::ClickHandler;
use mouse_config::command::CommandWrapper;
use mouse_config::error::LoadError;
use mouse_config::modifiers::ModifiersState;
use mouse_config::mouse::Mouse;
use mouse_config::pattern::PatternError;
use mouse_config::raw::{Entry, RawValue};
use mouse_config::report::Field;
use mouse_config::url::{Platform, Url};
use std::time::Duration;

fn mouse_text(s: &str) -> RawValue {
    RawValue::Text(s.to_string())
}

fn mouse_entry(key: &str, value: RawValue) -> Entry {
    Entry::new(key, value)
}

fn threshold(count: i128) -> RawValue {
    RawValue::Mapping(vec![mouse_entry("threshold", RawValue::Integer(count))])
}

#[test]
fn default_mouse_settings() {
    let mouse = Mouse::default_for(Platform::Unix);
    assert_eq!(mouse.double_click.threshold, Duration::from_millis(300));
    assert_eq!(mouse.triple_click.threshold, Duration::from_millis(300));
    assert!(!mouse.hide_when_typing);
    assert_eq!(mouse.url, Url::default_for(Platform::Unix));
}

#[test]
fn scenario_with_some_fields_given() {
    let raw = RawValue::Mapping(vec![
        mouse_entry("double_click", threshold(500)),
        mouse_entry("hide_when_typing", RawValue::Bool(true)),
        mouse_entry("url", RawValue::Mapping(vec![mouse_entry("launcher", mouse_text("none"))])),
    ]);
    let mut log = Vec::new();
    let mouse = Mouse::from_raw(&raw, Platform::Unix, &mut log).unwrap();
    assert_eq!(mouse.double_click.threshold, Duration::from_millis(500));
    assert_eq!(mouse.triple_click, ClickHandler::default());
    assert_eq!(mouse.triple_click.threshold, Duration::from_millis(300));
    assert!(mouse.hide_when_typing);
    assert_eq!(mouse.url.launcher, None);
    assert_eq!(mouse.url.mods(), ModifiersState::default());
    assert_eq!(
        mouse.url.mods(),
        ModifiersState { shift: false, ctrl: false, alt: false, logo: false }
    );
    assert_eq!(mouse.url.url_pat, None);
    assert!(log.is_empty());
}

#[test]
fn empty_mapping_gives_the_defaults() {
    let raw = RawValue::Mapping(vec![]);
    for platform in [Platform::Unix, Platform::Apple, Platform::Windows] {
        let mut log = Vec::new();
        assert_eq!(Mouse::from_raw(&raw, platform, &mut log), Ok(Mouse::default_for(platform)));
        assert!(log.is_empty());
    }
}

#[test]
fn absent_double_click_is_the_default_handler() {
    let raw = RawValue::Mapping(vec![mouse_entry("triple_click", threshold(700))]);
    let mut log = Vec::new();
    let mouse = Mouse::from_raw(&raw, Platform::Unix, &mut log).unwrap();
    assert_eq!(mouse.double_click, ClickHandler::default());
    assert_eq!(mouse.double_click.threshold, Duration::from_millis(300));
    assert_eq!(mouse.triple_click.threshold, Duration::from_millis(700));
    assert!(log.is_empty());
}

#[test]
fn written_out_defaults_read_back_as_the_defaults() {
    for platform in [Platform::Unix, Platform::Apple, Platform::Windows] {
        let raw = Mouse::default_config(platform);
        let mut log = Vec::new();
        let mouse = Mouse::from_raw(&raw, platform, &mut log).unwrap();
        assert_eq!(mouse, Mouse::default_for(platform));
        assert!(log.is_empty());
    }
}

#[test]
fn written_out_defaults_name_every_key() {
    let raw = Mouse::default_config(Platform::Apple);
    assert_eq!(raw.get("double_click"), Some(&threshold(300)));
    assert_eq!(raw.get("triple_click"), Some(&threshold(300)));
    assert_eq!(raw.get("hide_when_typing"), Some(&RawValue::Bool(false)));
    let url = raw.get("url").unwrap();
    assert_eq!(url.get("launcher"), Some(&mouse_text("open")));
    assert_eq!(url.get("modifiers"), Some(&mouse_text("None")));
    assert_eq!(url.get("url_pattern"), Some(&RawValue::Null));
}

#[test]
fn mouse_settings_from_a_value_that_is_no_mapping_are_refused() {
    for raw in [RawValue::Null, RawValue::Integer(1), RawValue::Sequence(vec![])] {
        let mut log = Vec::new();
        assert_eq!(Mouse::from_raw(&raw, Platform::Unix, &mut log), Err(LoadError::NotMapping));
        assert!(log.is_empty());
    }
}

#[test]
fn every_field_falls_back_on_its_own() {
    let raw = RawValue::Mapping(vec![
        mouse_entry("double_click", threshold(-5)),
        mouse_entry("triple_click", mouse_text("fast")),
        mouse_entry("hide_when_typing", mouse_text("yes")),
        mouse_entry("url", RawValue::Integer(9)),
    ]);
    let mut log = Vec::new();
    let mouse = Mouse::from_raw(&raw, Platform::Unix, &mut log).unwrap();
    assert_eq!(mouse, Mouse::default_for(Platform::Unix));
    let fields: Vec<Field> = log.iter().map(|warning| warning.field).collect();
    assert_eq!(
        fields,
        vec![Field::Threshold, Field::TripleClick, Field::HideWhenTyping, Field::Url]
    );
    assert_eq!(log[0].value, &RawValue::Integer(-5));
    assert_eq!(log[1].value, &mouse_text("fast"));
    assert_eq!(log[2].value, &mouse_text("yes"));
    assert_eq!(log[3].value, &RawValue::Integer(9));
}

#[test]
fn a_malformed_field_leaves_its_siblings() {
    let raw = RawValue::Mapping(vec![
        mouse_entry("double_click", threshold(-5)),
        mouse_entry("triple_click", threshold(800)),
        mouse_entry("hide_when_typing", RawValue::Bool(true)),
        mouse_entry(
            "url",
            RawValue::Mapping(vec![
                mouse_entry("launcher", RawValue::Integer(0)),
                mouse_entry("modifiers", mouse_text("Shift")),
            ]),
        ),
    ]);
    let mut log = Vec::new();
    let mouse = Mouse::from_raw(&raw, Platform::Apple, &mut log).unwrap();
    assert_eq!(mouse.double_click.threshold, Duration::from_millis(300));
    assert_eq!(mouse.triple_click.threshold, Duration::from_millis(800));
    assert!(mouse.hide_when_typing);
    assert_eq!(mouse.url.launcher, Some(CommandWrapper::Just("open".to_string())));
    assert_eq!(
        mouse.url.mods(),
        ModifiersState { shift: true, ctrl: false, alt: false, logo: false }
    );
    assert_eq!(log.len(), 2);
    assert_eq!(log[0].field, Field::Threshold);
    assert_eq!(log[1].field, Field::Launcher);
}

#[test]
fn invalid_pattern_fails_the_whole_load() {
    let raw = RawValue::Mapping(vec![
        mouse_entry("double_click", threshold(500)),
        mouse_entry("url", RawValue::Mapping(vec![mouse_entry("url_pattern", mouse_text("("))])),
    ]);
    let mut log = Vec::new();
    let loaded = Mouse::from_raw(&raw, Platform::Unix, &mut log);
    assert!(matches!(loaded, Err(LoadError::Pattern(PatternError::Invalid { .. }))));
}

#[test]
fn pattern_that_is_no_text_fails_the_whole_load() {
    let raw = RawValue::Mapping(vec![mouse_entry(
        "url",
        RawValue::Mapping(vec![mouse_entry("url_pattern", RawValue::Bool(true))]),
    )]);
    let mut log = Vec::new();
    assert_eq!(
        Mouse::from_raw(&raw, Platform::Unix, &mut log),
        Err(LoadError::Pattern(PatternError::NotText))
    );
}

#[test]
fn valid_pattern_is_kept() {
    let raw = RawValue::Mapping(vec![mouse_entry(
        "url",
        RawValue::Mapping(vec![mouse_entry("url_pattern", mouse_text(r"https?://\S+"))]),
    )]);
    let mut log = Vec::new();
    let mouse = Mouse::from_raw(&raw, Platform::Unix, &mut log).unwrap();
    let pattern = mouse.url.url_pat.unwrap();
    assert_eq!(pattern.as_str(), r"https?://\S+");
    assert!(pattern.re.is_match("http://a.b"));
}

#[test]
fn mouse_settings_can_be_copied_and_compared() {
    let mouse = Mouse::default_for(Platform::Unix);
    assert_eq!(mouse.clone(), mouse);
    assert_ne!(mouse, Mouse::default_for(Platform::Apple));
}

#[test]
fn invalid_pattern_is_never_replaced_by_a_default() {
    for source in ["(", "a)", "[z-a]", "a{2,1}", r"\"] {
        let raw = RawValue::Mapping(vec![
            mouse_entry("hide_when_typing", RawValue::Bool(true)),
            mouse_entry(
                "url",
                RawValue::Mapping(vec![
                    mouse_entry("launcher", mouse_text("firefox")),
                    mouse_entry("url_pattern", mouse_text(source)),
                ]),
            ),
        ]);
        let mut log = Vec::new();
        let loaded = Mouse::from_raw(&raw, Platform::Unix, &mut log);
        assert!(!loaded.is_ok(), "{:?}", source);
        assert!(matches!(loaded, Err(LoadError::Pattern(PatternError::Invalid { .. }))));
        assert!(log.is_empty());
    }
}
