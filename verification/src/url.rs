//! How links are opened: the program to launch, the keys to hold, and the
//! pattern that tells what a link is.

use crate::command::{command_of, CommandView, CommandWrapper};
use crate::error::LoadError;
use crate::modifiers::{modifiers_of, ModifiersState};
use crate::pattern::{compiles, ComparableRegex, PatternError};
use crate::raw::{field, RawValue, RawView};
use crate::report::{views, warn, Field, Warning, WarningView};
use crate::text::{is_none, is_none_word};
use vstd::prelude::*;

verus! {

/// The family of operating systems that the program runs on.
#[derive(Clone, Copy, Debug, PartialEq, Eq, Hash, Structural)]
pub enum Platform {
    /// Linux, the BSDs and what is like them.
    Unix,
    /// The systems of Apple.
    Apple,
    /// The Windows family.
    Windows,
}

/// The name of the program that opens a link on `platform`.
pub open spec fn default_program(platform: Platform) -> Seq<char> {
    match platform {
        Platform::Unix => "xdg-open"@,
        Platform::Apple => "open"@,
        Platform::Windows => "explorer"@,
    }
}

/// The launcher that is used where none is given: the platform's program,
/// without arguments.
pub open spec fn default_launcher(platform: Platform) -> CommandView {
    CommandView::Just(default_program(platform))
}

/// The launcher that is used on `platform` where none is given.
pub fn platform_launcher(platform: Platform) -> (launcher: CommandWrapper)
    ensures
        launcher@ == default_launcher(platform),
{
    match platform {
        Platform::Unix => CommandWrapper::Just("xdg-open".to_owned()),
        Platform::Apple => CommandWrapper::Just("open".to_owned()),
        Platform::Windows => CommandWrapper::Just("explorer".to_owned()),
    }
}

/// Whether a raw value switches the launcher off: the word `none`, in any
/// mix of upper and lower case.
pub open spec fn disables_launcher(raw: RawView) -> bool {
    raw matches RawView::Text(word) && is_none_word(word)
}

/// The launcher that a raw value stands for: none where the value switches
/// it off, the command that the value describes, and the platform's default
/// where it describes none.
pub open spec fn launcher_of(raw: RawView, platform: Platform) -> Option<CommandView> {
    if disables_launcher(raw) {
        None
    } else {
        match command_of(raw) {
            Some(command) => Some(command),
            None => Some(default_launcher(platform)),
        }
    }
}

/// What is reported of a raw value read as a launcher: one warning that
/// holds the value where the default took its place, and else nothing.
pub open spec fn launcher_warnings(raw: RawView) -> Seq<WarningView> {
    if !disables_launcher(raw) && command_of(raw) is None {
        seq![WarningView { field: Field::Launcher, value: raw }]
    } else {
        Seq::empty()
    }
}

/// The mathematical value of a launcher that may be switched off.
pub open spec fn launcher_view(launcher: Option<CommandWrapper>) -> Option<CommandView> {
    match launcher {
        Some(command) => Some(command@),
        None => None,
    }
}

/// Reads the launcher. The word `none` switches it off. A value that
/// describes no command is noted in `log` and the platform's default is
/// used.
pub fn deserialize_launcher<'a>(
    raw: &'a RawValue,
    platform: Platform,
    log: &mut Vec<Warning<'a>>,
) -> (launcher: Option<CommandWrapper>)
    ensures
        launcher_view(launcher) == launcher_of(raw@, platform),
        views(final(log)@) == views(old(log)@) + launcher_warnings(raw@),
{
    // Accept `none` to disable the launcher
    if let RawValue::Text(word) = raw {
        if is_none(word.as_str()) {
            assert(views(log@) + launcher_warnings(raw@) =~= views(log@));
            return None;
        }
    }
    match CommandWrapper::from_raw(raw) {
        Some(launcher) => {
            assert(views(log@) + launcher_warnings(raw@) =~= views(log@));
            Some(launcher)
        },
        None => {
            warn(log, Field::Launcher, raw);
            assert(views(old(log)@) + launcher_warnings(raw@) =~= views(log@));
            Some(platform_launcher(platform))
        },
    }
}

/// The keys that a raw value names, where it is a text that names keys.
pub open spec fn modifiers_given(raw: RawView) -> Option<ModifiersState> {
    match raw {
        RawView::Text(names) => modifiers_of(names),
        _ => None,
    }
}

/// The keys that a raw value stands for: those it names, or no key where it
/// names none.
pub open spec fn modifiers_for(raw: RawView) -> ModifiersState {
    match modifiers_given(raw) {
        Some(keys) => keys,
        None => ModifiersState::none(),
    }
}

/// What is reported of a raw value read as modifier keys: nothing where it
/// names keys, and otherwise one warning that holds the value.
pub open spec fn modifiers_warnings(raw: RawView) -> Seq<WarningView> {
    if modifiers_given(raw) is Some {
        Seq::empty()
    } else {
        seq![WarningView { field: Field::Modifiers, value: raw }]
    }
}

/// Reads the modifier keys. A value that names no keys is noted in `log`
/// and no key is asked for.
pub fn deserialize_modifiers<'a>(raw: &'a RawValue, log: &mut Vec<Warning<'a>>) -> (keys:
    ModifiersState)
    ensures
        keys == modifiers_for(raw@),
        views(final(log)@) == views(old(log)@) + modifiers_warnings(raw@),
{
    if let RawValue::Text(names) = raw {
        if let Some(keys) = ModifiersState::parse(names.as_str()) {
            assert(views(log@) + modifiers_warnings(raw@) =~= views(log@));
            return keys;
        }
    }
    warn(log, Field::Modifiers, raw);
    assert(views(old(log)@) + modifiers_warnings(raw@) =~= views(log@));
    ModifiersState::default()
}

/// The text of the pattern that a raw value asks for: none for the empty
/// value, the text itself for a text. Any other value is an error.
pub open spec fn pattern_source(raw: RawView) -> Result<Option<Seq<char>>, PatternError> {
    match raw {
        RawView::Null => Ok(None),
        RawView::Text(source) => Ok(Some(source)),
        _ => Err(PatternError::NotText),
    }
}

/// The mathematical value of a pattern that may be missing.
pub open spec fn pattern_view(pattern: Option<ComparableRegex>) -> Option<Seq<char>> {
    match pattern {
        Some(pattern) => Some(pattern@),
        None => None,
    }
}

/// Whether the text asked for as a pattern, if there is one, is refused by
/// the compiler.
pub open spec fn refused(source: Option<Seq<char>>) -> bool {
    source matches Some(text) && !compiles(text)
}

/// Reads the pattern for links. There is no default for a pattern: a value
/// that is neither empty nor a text is an error, and so is a text that does
/// not compile. A text that compiles gives the pattern of that text.
pub fn deserialize_pattern(raw: &RawValue) -> (loaded: Result<
    Option<ComparableRegex>,
    PatternError,
>)
    ensures
        match pattern_source(raw@) {
            Err(error) => loaded == Err::<Option<ComparableRegex>, PatternError>(error),
            Ok(source) => if refused(source) {
                loaded matches Err(PatternError::Invalid { .. })
            } else {
                loaded matches Ok(pattern) && pattern_view(pattern) == source
            },
        },
{
    match raw {
        RawValue::Null => Ok(None),
        RawValue::Text(source) => match ComparableRegex::new(source.as_str()) {
            Ok(pattern) => Ok(Some(pattern)),
            Err(error) => Err(error),
        },
        _ => Err(PatternError::NotText),
    }
}

/// The settings for links.
#[derive(Clone, Debug, PartialEq, Eq)]
pub struct Url {
    /// Program for opening links; `None` where the user switched it off.
    pub launcher: Option<CommandWrapper>,
    /// Modifier keys that must be held to open links; read them with
    /// [`Url::mods`].
    pub modifiers: ModifiersState,
    /// Pattern that tells what a link is; `None` where the built-in one
    /// serves.
    pub url_pat: Option<ComparableRegex>,
}

/// The mathematical value of a [`Url`].
pub struct UrlView {
    pub launcher: Option<CommandView>,
    pub modifiers: ModifiersState,
    pub url_pat: Option<Seq<char>>,
}

impl View for Url {
    type V = UrlView;

    open spec fn view(&self) -> UrlView {
        UrlView {
            launcher: launcher_view(self.launcher),
            modifiers: self.modifiers,
            url_pat: pattern_view(self.url_pat),
        }
    }
}

/// The settings that are used where none are given: the platform's
/// launcher, no modifier keys, no pattern.
pub open spec fn default_url(platform: Platform) -> UrlView {
    UrlView {
        launcher: Some(default_launcher(platform)),
        modifiers: ModifiersState::none(),
        url_pat: None,
    }
}

/// The settings that a raw value describes: each key of a mapping is read
/// on its own, and a missing key gives its default. A value that is no
/// mapping and a pattern that is no text are errors. The text of a pattern
/// is taken as it stands: [`url_fails`] says whether it compiles.
pub open spec fn url_of(raw: RawView, platform: Platform) -> Result<UrlView, LoadError> {
    match raw {
        RawView::Mapping(_) => {
            let launcher = match field(raw, "launcher"@) {
                Some(value) => launcher_of(value, platform),
                None => Some(default_launcher(platform)),
            };
            let modifiers = match field(raw, "modifiers"@) {
                Some(value) => modifiers_for(value),
                None => ModifiersState::none(),
            };
            let source = match field(raw, "url_pattern"@) {
                Some(value) => pattern_source(value),
                None => Ok(None),
            };
            match source {
                Ok(url_pat) => Ok(UrlView { launcher, modifiers, url_pat }),
                Err(error) => Err(LoadError::Pattern(error)),
            }
        },
        _ => Err(LoadError::NotMapping),
    }
}

/// Whether no settings for links can be loaded from a raw value: it is no
/// mapping, or its pattern is no text, or it is a text that does not
/// compile.
pub open spec fn url_fails(raw: RawView, platform: Platform) -> bool {
    match url_of(raw, platform) {
        Ok(url) => refused(url.url_pat),
        Err(_) => true,
    }
}

/// What is reported of a raw value read as settings for links: what its
/// `launcher` gives rise to, then what its `modifiers` give rise to.
pub open spec fn url_warnings(raw: RawView) -> Seq<WarningView> {
    let launcher = match field(raw, "launcher"@) {
        Some(value) => launcher_warnings(value),
        None => Seq::empty(),
    };
    let modifiers = match field(raw, "modifiers"@) {
        Some(value) => modifiers_warnings(value),
        None => Seq::empty(),
    };
    launcher + modifiers
}

impl Url {
    /// The modifier keys that must be held to open links.
    pub fn mods(&self) -> (keys: ModifiersState)
        ensures
            keys == self@.modifiers,
    {
        self.modifiers
    }

    /// The settings that are used on `platform` where none are given.
    pub fn default_for(platform: Platform) -> (url: Url)
        ensures
            url@ == default_url(platform),
    {
        Url {
            launcher: Some(platform_launcher(platform)),
            modifiers: ModifiersState::default(),
            url_pat: None,
        }
    }

    /// Reads the settings for links from a mapping with the keys `launcher`,
    /// `modifiers` and `url_pattern`. A malformed launcher or list of
    /// modifier keys is noted in `log` and replaced by its default. A
    /// pattern that is no text, or does not compile, fails the whole load,
    /// and nothing else does.
    pub fn from_raw<'a>(
        raw: &'a RawValue,
        platform: Platform,
        log: &mut Vec<Warning<'a>>,
    ) -> (loaded: Result<Url, LoadError>)
        ensures
            loaded is Err <==> url_fails(raw@, platform),
            match url_of(raw@, platform) {
                Err(error) => loaded == Err::<Url, LoadError>(error),
                Ok(url) => if refused(url.url_pat) {
                    loaded matches Err(LoadError::Pattern(PatternError::Invalid { .. }))
                } else {
                    loaded matches Ok(found) && found@ == url
                },
            },
            views(final(log)@) == views(old(log)@) + url_warnings(raw@),
    {
        if !raw.is_mapping() {
            assert(views(log@) + url_warnings(raw@) =~= views(log@));
            return Err(LoadError::NotMapping);
        }
        let launcher = match raw.get("launcher") {
            Some(value) => deserialize_launcher(value, platform, log),
            None => Some(platform_launcher(platform)),
        };
        let modifiers = match raw.get("modifiers") {
            Some(value) => deserialize_modifiers(value, log),
            None => ModifiersState::default(),
        };
        assert(views(log@) =~= views(old(log)@) + url_warnings(raw@));
        let url_pat = match raw.get("url_pattern") {
            Some(value) => match deserialize_pattern(value) {
                Ok(pattern) => pattern,
                Err(error) => {
                    return Err(LoadError::Pattern(error));
                },
            },
            None => None,
        };
        Ok(Url { launcher, modifiers, url_pat })
    }
}

} // verus!
