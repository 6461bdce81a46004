use mouse_config::command::CommandWrapper;
use mouse_config::raw::{Entry, RawValue};
use mouse_config::report::Field;
use mouse_config::text::is_none;
use mouse_config::url::{deserialize_launcher, platform_launcher, Platform, Url};

fn text(s: &str) -> RawValue {
    RawValue::Text(s.to_string())
}

fn entry(key: &str, value: RawValue) -> Entry {
    Entry::new(key, value)
}

#[test]
fn none_in_any_case_disables_the_launcher() {
    for word in ["none", "NONE", "None", "nOnE", "NoNe"] {
        let raw = text(word);
        let mut log = Vec::new();
        assert_eq!(deserialize_launcher(&raw, Platform::Unix, &mut log), None);
        assert!(log.is_empty());
    }
}

#[test]
fn none_word_is_recognised() {
    assert!(is_none("none"));
    assert!(is_none("NONE"));
    assert!(is_none("None"));
    assert!(!is_none("non"));
    assert!(!is_none("nonee"));
    assert!(!is_none(" none"));
    assert!(!is_none("open"));
    assert!(!is_none(""));
    assert!(!is_none("n\u{f6}ne"));
}

#[test]
fn bare_text_is_the_program() {
    let raw = text("my-opener");
    let mut log = Vec::new();
    assert_eq!(
        deserialize_launcher(&raw, Platform::Unix, &mut log),
        Some(CommandWrapper::Just("my-opener".to_string()))
    );
    assert!(log.is_empty());
}

#[test]
fn text_close_to_none_is_a_program() {
    for word in ["nonee", "no", "none "] {
        let raw = text(word);
        let mut log = Vec::new();
        assert_eq!(
            deserialize_launcher(&raw, Platform::Windows, &mut log),
            Some(CommandWrapper::Just(word.to_string()))
        );
        assert!(log.is_empty());
    }
}

#[test]
fn platform_default_programs() {
    assert_eq!(platform_launcher(Platform::Unix), CommandWrapper::Just("xdg-open".to_string()));
    assert_eq!(platform_launcher(Platform::Apple), CommandWrapper::Just("open".to_string()));
    assert_eq!(platform_launcher(Platform::Windows), CommandWrapper::Just("explorer".to_string()));
}

#[test]
fn absent_launcher_is_the_platform_default() {
    let raw = RawValue::Mapping(vec![]);
    for (platform, program) in
        [(Platform::Unix, "xdg-open"), (Platform::Apple, "open"), (Platform::Windows, "explorer")]
    {
        let mut log = Vec::new();
        let url = Url::from_raw(&raw, platform, &mut log).unwrap();
        assert_eq!(url.launcher, Some(CommandWrapper::Just(program.to_string())));
        assert!(log.is_empty());
    }
}

#[test]
fn malformed_launcher_falls_back_with_one_warning() {
    for raw in [
        RawValue::Integer(3),
        RawValue::Null,
        RawValue::Bool(false),
        RawValue::Sequence(vec![text("firefox")]),
        RawValue::Mapping(vec![]),
        RawValue::Mapping(vec![entry("program", RawValue::Integer(1))]),
        RawValue::Mapping(vec![entry("args", RawValue::Sequence(vec![]))]),
        RawValue::Mapping(vec![entry("program", text("firefox")), entry("args", text("-x"))]),
        RawValue::Mapping(vec![
            entry("program", text("firefox")),
            entry("args", RawValue::Sequence(vec![text("-x"), RawValue::Integer(2)])),
        ]),
    ] {
        let mut log = Vec::new();
        assert_eq!(
            deserialize_launcher(&raw, Platform::Apple, &mut log),
            Some(CommandWrapper::Just("open".to_string()))
        );
        assert_eq!(log.len(), 1);
        assert_eq!(log[0].field, Field::Launcher);
        assert_eq!(log[0].value, &raw);
    }
}

#[test]
fn program_with_arguments() {
    let raw = RawValue::Mapping(vec![
        entry("program", text("firefox")),
        entry("args", RawValue::Sequence(vec![text("--new-tab"), text("-p")])),
    ]);
    let mut log = Vec::new();
    let launcher = deserialize_launcher(&raw, Platform::Unix, &mut log).unwrap();
    assert_eq!(
        launcher,
        CommandWrapper::WithArgs {
            program: "firefox".to_string(),
            args: vec!["--new-tab".to_string(), "-p".to_string()],
        }
    );
    assert_eq!(launcher.program(), "firefox");
    assert!(log.is_empty());
}

#[test]
fn program_without_listed_arguments_has_none() {
    let raw = RawValue::Mapping(vec![entry("program", text("none"))]);
    let mut log = Vec::new();
    assert_eq!(
        deserialize_launcher(&raw, Platform::Unix, &mut log),
        Some(CommandWrapper::WithArgs { program: "none".to_string(), args: vec![] })
    );
    assert!(log.is_empty());
}

#[test]
fn command_from_raw_tells_commands_from_other_values() {
    assert_eq!(CommandWrapper::from_raw(&text("sh")), Some(CommandWrapper::Just("sh".to_string())));
    assert_eq!(CommandWrapper::from_raw(&RawValue::Integer(1)), None);
    assert_eq!(CommandWrapper::Just("sh".to_string()).program(), "sh");
}

#[test]
fn arguments_of_a_command() {
    let bare = CommandWrapper::Just("sh".to_string());
    assert!(bare.args().is_empty());
    let with = CommandWrapper::WithArgs {
        program: "sh".to_string(),
        args: vec!["-c".to_string(), "true".to_string()],
    };
    assert_eq!(with.args(), ["-c".to_string(), "true".to_string()]);
    let without = CommandWrapper::WithArgs { program: "sh".to_string(), args: vec![] };
    assert!(without.args().is_empty());
}
