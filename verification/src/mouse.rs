//! The mouse settings as a whole.

use crate::click::{click_of, click_warnings, ClickHandler, DEFAULT_THRESHOLD_MS};
use crate::command::CommandWrapper;
use crate::error::LoadError;
use crate::modifiers::{is_space, lemma_one_name, lemma_trim_clean, modifiers_of, ModifiersState};
use crate::pattern::PatternError;
use crate::raw::{field, lemma_lookup_found, Entry, EntryView, RawValue, RawView};
use crate::report::{views, warn, Field, Warning, WarningView};
use crate::text::is_none_word;
use crate::url::{
    default_program, default_url, platform_launcher, refused, url_of, url_warnings, Platform, Url,
    UrlView,
};
use vstd::prelude::*;

verus! {

/// The mouse settings. Every field is always there: what the configuration
/// leaves out, or gets wrong, holds its default.
#[derive(Clone, Debug, PartialEq, Eq)]
pub struct Mouse {
    pub double_click: ClickHandler,
    pub triple_click: ClickHandler,
    pub hide_when_typing: bool,
    pub url: Url,
}

/// The mathematical value of a [`Mouse`].
pub struct MouseView {
    pub double_click: ClickHandler,
    pub triple_click: ClickHandler,
    pub hide_when_typing: bool,
    pub url: UrlView,
}

impl View for Mouse {
    type V = MouseView;

    open spec fn view(&self) -> MouseView {
        MouseView {
            double_click: self.double_click,
            triple_click: self.triple_click,
            hide_when_typing: self.hide_when_typing,
            url: self.url@,
        }
    }
}

/// The settings that are used on `platform` where none are given.
pub open spec fn default_mouse(platform: Platform) -> MouseView {
    MouseView {
        double_click: ClickHandler::spec_default(),
        triple_click: ClickHandler::spec_default(),
        hide_when_typing: false,
        url: default_url(platform),
    }
}

/// The handler that stands under a key: the default where the key is
/// missing or its value is no mapping, and else what the mapping describes.
pub open spec fn click_for(value: Option<RawView>) -> ClickHandler {
    match value {
        Some(raw) => match click_of(raw) {
            Some(handler) => handler,
            None => ClickHandler::spec_default(),
        },
        None => ClickHandler::spec_default(),
    }
}

/// What is reported of the value under the key of a handler: one warning
/// for `key` where the value is no mapping, and else what the mapping gives
/// rise to.
pub open spec fn click_field_warnings(value: Option<RawView>, key: Field) -> Seq<WarningView> {
    match value {
        Some(raw) => if click_of(raw) is Some {
            click_warnings(raw)
        } else {
            seq![WarningView { field: key, value: raw }]
        },
        None => Seq::empty(),
    }
}

/// Whether the pointer hides while keys are pressed: what the value says
/// where it is a truth value, and no in every other case.
pub open spec fn hide_for(value: Option<RawView>) -> bool {
    match value {
        Some(RawView::Bool(hidden)) => hidden,
        _ => false,
    }
}

/// What is reported of the value under `hide_when_typing`: one warning
/// where it is there and no truth value.
pub open spec fn hide_warnings(value: Option<RawView>) -> Seq<WarningView> {
    match value {
        Some(raw) => if raw is Bool {
            Seq::empty()
        } else {
            seq![WarningView { field: Field::HideWhenTyping, value: raw }]
        },
        None => Seq::empty(),
    }
}

/// The settings for links that stand under `url`: the default where the key
/// is missing or its value is no mapping, and else what the mapping
/// describes. A pattern that is no text stays an error.
pub open spec fn url_for(value: Option<RawView>, platform: Platform) -> Result<
    UrlView,
    LoadError,
> {
    match value {
        Some(raw) => match url_of(raw, platform) {
            Err(LoadError::NotMapping) => Ok(default_url(platform)),
            described => described,
        },
        None => Ok(default_url(platform)),
    }
}

/// What is reported of the value under `url`: one warning where it is no
/// mapping, and else what the mapping gives rise to.
pub open spec fn url_field_warnings(value: Option<RawView>) -> Seq<WarningView> {
    match value {
        Some(raw) => if raw is Mapping {
            url_warnings(raw)
        } else {
            seq![WarningView { field: Field::Url, value: raw }]
        },
        None => Seq::empty(),
    }
}

/// The mouse settings that a raw value describes. Each key of a mapping is
/// read on its own, so that no value can spoil another. Only a value that
/// is no mapping, and a pattern for links that is no text, are errors. The
/// text of a pattern is taken as it stands: [`mouse_fails`] says whether it
/// compiles.
pub open spec fn mouse_of(raw: RawView, platform: Platform) -> Result<MouseView, LoadError> {
    match raw {
        RawView::Mapping(_) => match url_for(field(raw, "url"@), platform) {
            Ok(url) => Ok(
                MouseView {
                    double_click: click_for(field(raw, "double_click"@)),
                    triple_click: click_for(field(raw, "triple_click"@)),
                    hide_when_typing: hide_for(field(raw, "hide_when_typing"@)),
                    url,
                },
            ),
            Err(error) => Err(error),
        },
        _ => Err(LoadError::NotMapping),
    }
}

/// Whether no mouse settings can be loaded from a raw value: it is no
/// mapping, or its pattern for links is no text, or it is a text that does
/// not compile.
pub open spec fn mouse_fails(raw: RawView, platform: Platform) -> bool {
    match mouse_of(raw, platform) {
        Ok(mouse) => refused(mouse.url.url_pat),
        Err(_) => true,
    }
}

/// What is reported of a raw value read as mouse settings, in the order of
/// the keys `double_click`, `triple_click`, `hide_when_typing`, `url`.
pub open spec fn mouse_warnings(raw: RawView) -> Seq<WarningView> {
    click_field_warnings(field(raw, "double_click"@), Field::DoubleClick) + click_field_warnings(
        field(raw, "triple_click"@),
        Field::TripleClick,
    ) + hide_warnings(field(raw, "hide_when_typing"@)) + url_field_warnings(field(raw, "url"@))
}

/// A handler with the default threshold, written out as a configuration.
pub open spec fn default_click_raw() -> RawView {
    RawView::Mapping(
        seq![
            EntryView {
                key: RawView::Text("threshold"@),
                value: RawView::Integer(DEFAULT_THRESHOLD_MS as int),
            },
        ],
    )
}

/// The default settings for links on `platform`, written out as a
/// configuration.
pub open spec fn default_url_raw(platform: Platform) -> RawView {
    RawView::Mapping(
        seq![
            EntryView {
                key: RawView::Text("launcher"@),
                value: RawView::Text(default_program(platform)),
            },
            EntryView { key: RawView::Text("modifiers"@), value: RawView::Text("None"@) },
            EntryView { key: RawView::Text("url_pattern"@), value: RawView::Null },
        ],
    )
}

/// The default mouse settings on `platform`, written out in full as a
/// configuration: every key is there and holds its default.
pub open spec fn default_raw(platform: Platform) -> RawView {
    RawView::Mapping(
        seq![
            EntryView { key: RawView::Text("double_click"@), value: default_click_raw() },
            EntryView { key: RawView::Text("triple_click"@), value: default_click_raw() },
            EntryView { key: RawView::Text("hide_when_typing"@), value: RawView::Bool(false) },
            EntryView { key: RawView::Text("url"@), value: default_url_raw(platform) },
        ],
    )
}

/// The default handler, written out, reads as the default handler.
proof fn lemma_default_click_reads_back()
    ensures
        click_of(default_click_raw()) == Some(ClickHandler::spec_default()),
        click_warnings(default_click_raw()) == Seq::<WarningView>::empty(),
{
    let entries = default_click_raw()->Mapping_0;
    lemma_lookup_found(entries, "threshold"@, 0);
}

/// The default settings for links, written out, read as themselves.
proof fn lemma_default_url_reads_back(platform: Platform)
    ensures
        url_of(default_url_raw(platform), platform) == Ok::<UrlView, LoadError>(
            default_url(platform),
        ),
        url_warnings(default_url_raw(platform)) == Seq::<WarningView>::empty(),
{
    reveal_strlit("launcher");
    reveal_strlit("modifiers");
    reveal_strlit("url_pattern");
    reveal_strlit("xdg-open");
    reveal_strlit("open");
    reveal_strlit("explorer");
    reveal_strlit("None");
    reveal_strlit("Command");
    reveal_strlit("Super");
    reveal_strlit("Shift");
    reveal_strlit("Alt");
    reveal_strlit("Option");
    reveal_strlit("Control");
    let entries = default_url_raw(platform)->Mapping_0;
    assert("launcher"@[0] != "modifiers"@[0]);
    assert("launcher"@[0] != "url_pattern"@[0]);
    assert("modifiers"@[0] != "url_pattern"@[0]);
    lemma_lookup_found(entries, "launcher"@, 0);
    lemma_lookup_found(entries, "modifiers"@, 1);
    lemma_lookup_found(entries, "url_pattern"@, 2);
    let word = "None"@;
    assert(!is_space(word[0]) && !is_space(word.last()));
    lemma_trim_clean(word);
    lemma_one_name(word);
    assert(word != "Command"@ && word != "Super"@ && word != "Shift"@ && word != "Alt"@ && word
        != "Option"@ && word != "Control"@) by {
        assert("Command"@.len() == 7 && "Super"@.len() == 5 && "Shift"@.len() == 5 && "Alt"@.len()
            == 3 && "Option"@.len() == 6 && "Control"@.len() == 7 && word.len() == 4);
    }
    assert(modifiers_of(word) == Some(ModifiersState::none()));
    let program = default_program(platform);
    assert(!is_none_word(program)) by {
        assert("xdg-open"@.len() == 8 && "explorer"@.len() == 8);
        assert("open"@[0] == 'o');
    }
    assert(url_warnings(default_url_raw(platform)) =~= Seq::<WarningView>::empty());
}

/// Defaulting is idempotent: the default settings, written out in full and
/// read again, are the default settings, on every platform, and nothing is
/// reported.
pub proof fn lemma_default_reads_back(platform: Platform)
    ensures
        mouse_of(default_raw(platform), platform) == Ok::<MouseView, LoadError>(
            default_mouse(platform),
        ),
        mouse_warnings(default_raw(platform)) == Seq::<WarningView>::empty(),
{
    reveal_strlit("double_click");
    reveal_strlit("triple_click");
    reveal_strlit("hide_when_typing");
    reveal_strlit("url");
    let entries = default_raw(platform)->Mapping_0;
    assert("double_click"@[0] != "triple_click"@[0]);
    assert("double_click"@[0] != "hide_when_typing"@[0]);
    assert("double_click"@[0] != "url"@[0]);
    assert("triple_click"@[0] != "hide_when_typing"@[0]);
    assert("triple_click"@[0] != "url"@[0]);
    assert("hide_when_typing"@[0] != "url"@[0]);
    lemma_lookup_found(entries, "double_click"@, 0);
    lemma_lookup_found(entries, "triple_click"@, 1);
    lemma_lookup_found(entries, "hide_when_typing"@, 2);
    lemma_lookup_found(entries, "url"@, 3);
    lemma_default_click_reads_back();
    lemma_default_url_reads_back(platform);
    assert(mouse_warnings(default_raw(platform)) =~= Seq::<WarningView>::empty());
}

/// The mathematical value of what was found under a key, if anything.
spec fn seen(value: Option<&RawValue>) -> Option<RawView> {
    match value {
        Some(raw) => Some(raw@),
        None => None,
    }
}

/// Reads the handler under `key`, with the default in place of a value that
/// is no mapping.
fn click_field<'a>(
    value: Option<&'a RawValue>,
    key: Field,
    log: &mut Vec<Warning<'a>>,
) -> (handler: ClickHandler)
    ensures
        handler == click_for(seen(value)),
        views(final(log)@) == views(old(log)@) + click_field_warnings(seen(value), key),
{
    match value {
        Some(raw) => match ClickHandler::from_raw(raw, log) {
            Ok(handler) => handler,
            Err(_) => {
                assert(views(log@) =~= views(old(log)@));
                warn(log, key, raw);
                assert(views(log@) =~= views(old(log)@) + click_field_warnings(Some(raw@), key));
                ClickHandler::default()
            },
        },
        None => {
            assert(views(log@) + Seq::<WarningView>::empty() =~= views(log@));
            ClickHandler::default()
        },
    }
}

/// Reads `hide_when_typing`, with `false` in place of a value that is no
/// truth value.
fn hide_field<'a>(value: Option<&'a RawValue>, log: &mut Vec<Warning<'a>>) -> (hidden: bool)
    ensures
        hidden == hide_for(seen(value)),
        views(final(log)@) == views(old(log)@) + hide_warnings(seen(value)),
{
    match value {
        Some(RawValue::Bool(hidden)) => {
            assert(views(log@) + Seq::<WarningView>::empty() =~= views(log@));
            *hidden
        },
        Some(raw) => {
            warn(log, Field::HideWhenTyping, raw);
            assert(views(log@) =~= views(old(log)@) + hide_warnings(Some(raw@)));
            false
        },
        None => {
            assert(views(log@) + Seq::<WarningView>::empty() =~= views(log@));
            false
        },
    }
}

/// Reads the settings under `url`, with the default in place of a value
/// that is no mapping. A pattern that cannot be used stays an error.
fn url_field<'a>(
    value: Option<&'a RawValue>,
    platform: Platform,
    log: &mut Vec<Warning<'a>>,
) -> (loaded: Result<Url, LoadError>)
    ensures
        match url_for(seen(value), platform) {
            Err(error) => loaded == Err::<Url, LoadError>(error),
            Ok(url) => if refused(url.url_pat) {
                loaded matches Err(LoadError::Pattern(PatternError::Invalid { .. }))
            } else {
                loaded matches Ok(found) && found@ == url
            },
        },
        views(final(log)@) == views(old(log)@) + url_field_warnings(seen(value)),
{
    match value {
        Some(raw) => match Url::from_raw(raw, platform, log) {
            Err(LoadError::NotMapping) => {
                assert(views(log@) =~= views(old(log)@));
                warn(log, Field::Url, raw);
                assert(views(log@) =~= views(old(log)@) + url_field_warnings(Some(raw@)));
                Ok(Url::default_for(platform))
            },
            loaded => loaded,
        },
        None => {
            assert(views(log@) + Seq::<WarningView>::empty() =~= views(log@));
            Ok(Url::default_for(platform))
        },
    }
}

/// Writes out a handler with the default threshold.
fn default_click_config() -> (raw: RawValue)
    ensures
        raw@ == default_click_raw(),
{
    let entries = vec![
        Entry::new("threshold", RawValue::Integer(DEFAULT_THRESHOLD_MS as i128)),
    ];
    let raw = RawValue::Mapping(entries);
    proof {
        raw.lemma_entries();
        assert(raw->Mapping_0@.len() == 1);
        assert(raw->Mapping_0@[0]@ == default_click_raw()->Mapping_0[0]);
        assert(raw@->Mapping_0 =~= default_click_raw()->Mapping_0);
    }
    raw
}

/// Writes out the default settings for links on `platform`.
fn default_url_config(platform: Platform) -> (raw: RawValue)
    ensures
        raw@ == default_url_raw(platform),
{
    let program = match platform_launcher(platform) {
        CommandWrapper::Just(program) => program,
        CommandWrapper::WithArgs { program, .. } => program,
    };
    let entries = vec![
        Entry::new("launcher", RawValue::Text(program)),
        Entry::new("modifiers", RawValue::Text("None".to_owned())),
        Entry::new("url_pattern", RawValue::Null),
    ];
    let raw = RawValue::Mapping(entries);
    proof {
        raw.lemma_entries();
        assert(raw->Mapping_0@.len() == 3);
        assert(raw->Mapping_0@[0]@ == default_url_raw(platform)->Mapping_0[0]);
        assert(raw->Mapping_0@[1]@ == default_url_raw(platform)->Mapping_0[1]);
        assert(raw->Mapping_0@[2]@ == default_url_raw(platform)->Mapping_0[2]);
        assert(raw@->Mapping_0 =~= default_url_raw(platform)->Mapping_0);
    }
    raw
}

impl Mouse {
    /// The default settings on `platform`, written out in full as a
    /// configuration. Read again, it gives the default settings.
    pub fn default_config(platform: Platform) -> (raw: RawValue)
        ensures
            raw@ == default_raw(platform),
    {
        let entries = vec![
            Entry::new("double_click", default_click_config()),
            Entry::new("triple_click", default_click_config()),
            Entry::new("hide_when_typing", RawValue::Bool(false)),
            Entry::new("url", default_url_config(platform)),
        ];
        let raw = RawValue::Mapping(entries);
        proof {
            raw.lemma_entries();
            assert(raw->Mapping_0@.len() == 4);
            assert(raw->Mapping_0@[0]@ == default_raw(platform)->Mapping_0[0]);
            assert(raw->Mapping_0@[1]@ == default_raw(platform)->Mapping_0[1]);
            assert(raw->Mapping_0@[2]@ == default_raw(platform)->Mapping_0[2]);
            assert(raw->Mapping_0@[3]@ == default_raw(platform)->Mapping_0[3]);
            assert(raw@->Mapping_0 =~= default_raw(platform)->Mapping_0);
        }
        raw
    }

    /// The settings that are used on `platform` where none are given.
    pub fn default_for(platform: Platform) -> (mouse: Mouse)
        ensures
            mouse@ == default_mouse(platform),
    {
        Mouse {
            double_click: ClickHandler::default(),
            triple_click: ClickHandler::default(),
            hide_when_typing: false,
            url: Url::default_for(platform),
        }
    }

    /// Reads the mouse settings from a mapping with the keys `double_click`,
    /// `triple_click`, `hide_when_typing` and `url`. Each value that is
    /// malformed is noted in `log` and replaced by its default, whatever the
    /// other values are. The load fails for a value that is no mapping and
    /// for a pattern for links that is no text or does not compile, and for
    /// nothing else.
    pub fn from_raw<'a>(
        raw: &'a RawValue,
        platform: Platform,
        log: &mut Vec<Warning<'a>>,
    ) -> (loaded: Result<Mouse, LoadError>)
        ensures
            loaded is Err <==> mouse_fails(raw@, platform),
            match mouse_of(raw@, platform) {
                Err(error) => loaded == Err::<Mouse, LoadError>(error),
                Ok(mouse) => if refused(mouse.url.url_pat) {
                    loaded matches Err(LoadError::Pattern(PatternError::Invalid { .. }))
                } else {
                    loaded matches Ok(found) && found@ == mouse
                },
            },
            views(final(log)@) == views(old(log)@) + mouse_warnings(raw@),
    {
        if !raw.is_mapping() {
            assert(views(log@) + mouse_warnings(raw@) =~= views(log@));
            return Err(LoadError::NotMapping);
        }
        let double_click = click_field(raw.get("double_click"), Field::DoubleClick, log);
        let triple_click = click_field(raw.get("triple_click"), Field::TripleClick, log);
        let hide_when_typing = hide_field(raw.get("hide_when_typing"), log);
        let url = url_field(raw.get("url"), platform, log);
        assert(views(log@) =~= views(old(log)@) + mouse_warnings(raw@));
        match url {
            Ok(url) => Ok(Mouse { double_click, triple_click, hide_when_typing, url }),
            Err(error) => Err(error),
        }
    }
}

} // verus!
