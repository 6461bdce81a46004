//! What holds of the settings whatever the configuration says.

use crate::click::{
    click_of, click_warnings, duration_of, duration_warnings, millis, millis_given, ClickHandler,
    DEFAULT_THRESHOLD_MS,
};
use crate::command::{command_of, CommandView};
use crate::modifiers::{lemma_first_name, lemma_one_name, modifiers_of};
use crate::mouse::{click_field_warnings, click_for, mouse_fails, mouse_of};
use crate::error::LoadError;
use crate::pattern::{compiles, ComparableRegex, PatternError};
use crate::raw::{field, RawView};
use crate::report::{Field, WarningView};
use crate::text::is_none_word;
use crate::url::{
    default_launcher, disables_launcher, launcher_of, launcher_warnings, url_fails, url_of,
    url_warnings, Platform,
};
use vstd::prelude::*;
use vstd::std_specs::cmp::PartialEqSpec;

verus! {

/// A threshold given as a whole count of milliseconds, from 0 up to the
/// largest count a span can take, is the threshold of the handler, exactly,
/// and nothing is reported.
pub proof fn lemma_threshold_is_kept(raw: RawView, count: u64)
    requires
        raw is Mapping,
        field(raw, "threshold"@) == Some(RawView::Integer(count as int)),
    ensures
        click_of(raw) == Some(ClickHandler { threshold: millis(count) }),
        click_warnings(raw) == Seq::<WarningView>::empty(),
{
}

/// A threshold that is no count of milliseconds (a negative number, a text,
/// anything but a whole number in range) gives the default threshold, and
/// exactly one warning, which holds the value.
pub proof fn lemma_malformed_threshold_is_default(raw: RawView, value: RawView)
    requires
        raw is Mapping,
        field(raw, "threshold"@) == Some(value),
        millis_given(value) is None,
    ensures
        click_of(raw) == Some(ClickHandler { threshold: millis(DEFAULT_THRESHOLD_MS) }),
        click_warnings(raw) == seq![WarningView { field: Field::Threshold, value }],
        click_warnings(raw).len() == 1,
{
}

/// What is read as a span is a count that the value gives, or the default:
/// never anything else.
pub proof fn lemma_duration_is_count_or_default(value: RawView)
    ensures
        match millis_given(value) {
            Some(count) => duration_of(value) == millis(count) && duration_warnings(value).len()
                == 0,
            None => duration_of(value) == millis(DEFAULT_THRESHOLD_MS) && duration_warnings(
                value,
            ).len() == 1,
        },
{
}

/// Mouse settings that say nothing of `double_click` hold the default
/// handler there, and report nothing of it. The same holds of
/// `triple_click`.
pub proof fn lemma_absent_handler_is_default(raw: RawView, platform: Platform)
    requires
        raw is Mapping,
    ensures
        field(raw, "double_click"@) is None ==> {
            &&& click_for(field(raw, "double_click"@)) == ClickHandler::spec_default()
            &&& click_field_warnings(field(raw, "double_click"@), Field::DoubleClick).len() == 0
            &&& mouse_of(raw, platform) matches Ok(mouse) ==> mouse.double_click
                == ClickHandler::spec_default()
        },
        field(raw, "triple_click"@) is None ==> {
            &&& click_for(field(raw, "triple_click"@)) == ClickHandler::spec_default()
            &&& click_field_warnings(field(raw, "triple_click"@), Field::TripleClick).len() == 0
            &&& mouse_of(raw, platform) matches Ok(mouse) ==> mouse.triple_click
                == ClickHandler::spec_default()
        },
{
}

/// The word `none`, in whatever case its letters stand, switches the
/// launcher off on every platform, and nothing is reported.
pub proof fn lemma_none_disables_launcher(word: Seq<char>, platform: Platform)
    requires
        is_none_word(word),
    ensures
        launcher_of(RawView::Text(word), platform) is None,
        launcher_warnings(RawView::Text(word)).len() == 0,
{
}

/// The launcher is off only where the word `none` asked for it: every
/// other value leaves a launcher.
pub proof fn lemma_launcher_off_only_on_request(value: RawView, platform: Platform)
    ensures
        launcher_of(value, platform) is None <==> disables_launcher(value),
{
}

/// Settings for links hold no launcher only where the configuration has a
/// `launcher` and it is the word `none`: a missing or malformed launcher
/// never switches it off.
pub proof fn lemma_no_launcher_only_on_request(raw: RawView, platform: Platform)
    ensures
        url_of(raw, platform) matches Ok(url) ==> (url.launcher is None <==> (field(
            raw,
            "launcher"@,
        ) matches Some(value) && disables_launcher(value))),
{
}

/// A text other than the word `none` is taken as the name of the program,
/// without arguments, and nothing is reported.
pub proof fn lemma_text_names_program(name: Seq<char>, platform: Platform)
    requires
        !is_none_word(name),
    ensures
        launcher_of(RawView::Text(name), platform) == Some(CommandView::Just(name)),
        launcher_warnings(RawView::Text(name)).len() == 0,
{
}

/// A value that neither switches the launcher off nor describes a command
/// gives the platform's default launcher and exactly one warning.
pub proof fn lemma_malformed_launcher_is_default(value: RawView, platform: Platform)
    requires
        !disables_launcher(value),
        command_of(value) is None,
    ensures
        launcher_of(value, platform) == Some(default_launcher(platform)),
        launcher_warnings(value) == seq![WarningView { field: Field::Launcher, value }],
{
}

/// Settings for links that say nothing of `launcher` hold the platform's
/// default launcher: the launcher is not off, and nothing is reported of
/// it.
pub proof fn lemma_absent_launcher_is_default(raw: RawView, platform: Platform)
    requires
        raw is Mapping,
        field(raw, "launcher"@) is None,
    ensures
        url_of(raw, platform) matches Ok(url) ==> url.launcher == Some(default_launcher(platform)),
        forall|i: int|
            0 <= i < url_warnings(raw).len() ==> (#[trigger] url_warnings(raw)[i]).field
                != Field::Launcher,
{
}

/// The load of settings for links from a mapping fails for one reason
/// only: its pattern. It fails exactly where the mapping holds, under
/// `url_pattern`, a value that is neither empty nor a text that compiles.
pub proof fn lemma_only_the_pattern_fails_links(raw: RawView, platform: Platform)
    requires
        raw is Mapping,
    ensures
        url_fails(raw, platform) <==> (field(raw, "url_pattern"@) matches Some(value) && !(value
            is Null) && !(value matches RawView::Text(source) && compiles(source))),
{
}

/// The load of mouse settings from a mapping fails for one reason only: the
/// pattern for links. It fails exactly where `url` is a mapping that holds,
/// under `url_pattern`, a value that is neither empty nor a text that
/// compiles. Where the pattern is no text the error says so.
pub proof fn lemma_only_the_pattern_fails(raw: RawView, platform: Platform)
    requires
        raw is Mapping,
    ensures
        mouse_fails(raw, platform) <==> (field(raw, "url"@) matches Some(url) && url is Mapping
            && url_fails(url, platform)),
        mouse_fails(raw, platform) <==> (field(raw, "url"@) matches Some(url) && field(
            url,
            "url_pattern"@,
        ) matches Some(value) && !(value is Null) && !(value matches RawView::Text(source)
            && compiles(source))),
        mouse_of(raw, platform) matches Err(error) ==> error == LoadError::Pattern(
            PatternError::NotText,
        ),
{
}

/// A pattern that does not compile fails the load of the settings that hold
/// it: they are never loaded with a default, or with no pattern, in its
/// place.
pub proof fn lemma_invalid_pattern_fails(
    raw: RawView,
    url: RawView,
    source: Seq<char>,
    platform: Platform,
)
    requires
        raw is Mapping,
        field(raw, "url"@) == Some(url),
        field(url, "url_pattern"@) == Some(RawView::Text(source)),
        !compiles(source),
    ensures
        url_fails(url, platform),
        mouse_fails(raw, platform),
{
}

/// A pattern that compiles is kept as it was written, whatever else the
/// configuration holds.
pub proof fn lemma_valid_pattern_is_kept(
    raw: RawView,
    url: RawView,
    source: Seq<char>,
    platform: Platform,
)
    requires
        raw is Mapping,
        field(raw, "url"@) == Some(url),
        field(url, "url_pattern"@) == Some(RawView::Text(source)),
        compiles(source),
    ensures
        !mouse_fails(raw, platform),
        mouse_of(raw, platform) matches Ok(mouse) && mouse.url.url_pat == Some(source),
{
}

/// No value can spoil another: in two configurations that both load, a
/// field is the same wherever the values under its key are the same,
/// whatever stands under the other keys.
pub proof fn lemma_fields_stand_alone(first: RawView, second: RawView, platform: Platform)
    requires
        mouse_of(first, platform) is Ok,
        mouse_of(second, platform) is Ok,
    ensures
        ({
            let one = mouse_of(first, platform)->Ok_0;
            let other = mouse_of(second, platform)->Ok_0;
            &&& field(first, "double_click"@) == field(second, "double_click"@)
                ==> one.double_click == other.double_click
            &&& field(first, "triple_click"@) == field(second, "triple_click"@)
                ==> one.triple_click == other.triple_click
            &&& field(first, "hide_when_typing"@) == field(second, "hide_when_typing"@)
                ==> one.hide_when_typing == other.hide_when_typing
            &&& field(first, "url"@) == field(second, "url"@) ==> one.url == other.url
        }),
{
}

/// Within the settings for links, too, each key is read on its own.
pub proof fn lemma_url_fields_stand_alone(first: RawView, second: RawView, platform: Platform)
    requires
        url_of(first, platform) is Ok,
        url_of(second, platform) is Ok,
    ensures
        ({
            let one = url_of(first, platform)->Ok_0;
            let other = url_of(second, platform)->Ok_0;
            &&& field(first, "launcher"@) == field(second, "launcher"@) ==> one.launcher
                == other.launcher
            &&& field(first, "modifiers"@) == field(second, "modifiers"@) ==> one.modifiers
                == other.modifiers
            &&& field(first, "url_pattern"@) == field(second, "url_pattern"@) ==> one.url_pat
                == other.url_pat
        }),
{
}

/// The order of two names does not matter: a list of two names asks for
/// the same keys whichever of them stands first.
pub proof fn lemma_names_in_any_order(one: Seq<char>, other: Seq<char>)
    requires
        forall|i: int| 0 <= i < one.len() ==> one[i] != '|',
        forall|i: int| 0 <= i < other.len() ==> other[i] != '|',
    ensures
        modifiers_of(one + seq!['|'] + other) == modifiers_of(other + seq!['|'] + one),
{
    lemma_first_name(one, other);
    lemma_one_name(other);
    lemma_first_name(other, one);
    lemma_one_name(one);
}

/// Two patterns compare equal exactly where they were written the same.
/// So two patterns built from one text are equal, and two built from
/// different texts are not, though both compiled.
pub proof fn lemma_equal_as_written(
    first: ComparableRegex,
    second: ComparableRegex,
    one: Seq<char>,
    other: Seq<char>,
)
    requires
        first@ == one,
        second@ == other,
    ensures
        first.eq_spec(&second) <==> one == other,
{
}

} // verus!
