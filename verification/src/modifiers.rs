//! The modifier keys that must be held, written as a text such as
//! `Control|Shift`.

use vstd::prelude::*;

verus! {

/// Which modifier keys are held. The logo key is the Windows key on a PC and
/// the command key on a Mac.
#[derive(Clone, Copy, Debug, PartialEq, Eq, Hash, Structural)]
pub struct ModifiersState {
    pub shift: bool,
    pub ctrl: bool,
    pub alt: bool,
    pub logo: bool,
}

impl ModifiersState {
    /// No key held.
    pub open spec fn none() -> ModifiersState {
        ModifiersState { shift: false, ctrl: false, alt: false, logo: false }
    }

    /// The keys held in either of two states.
    pub open spec fn union(self, other: ModifiersState) -> ModifiersState {
        ModifiersState {
            shift: self.shift || other.shift,
            ctrl: self.ctrl || other.ctrl,
            alt: self.alt || other.alt,
            logo: self.logo || other.logo,
        }
    }

    /// Adds the keys held in `other`.
    fn with(self, other: ModifiersState) -> (both: ModifiersState)
        ensures
            both == self.union(other),
    {
        ModifiersState {
            shift: self.shift || other.shift,
            ctrl: self.ctrl || other.ctrl,
            alt: self.alt || other.alt,
            logo: self.logo || other.logo,
        }
    }
}

impl Default for ModifiersState {
    /// No key held.
    fn default() -> (state: ModifiersState)
        ensures
            state == ModifiersState::none(),
    {
        ModifiersState { shift: false, ctrl: false, alt: false, logo: false }
    }
}

/// Whether `c` is white space: a character with the Unicode property
/// `White_Space`.
pub open spec fn is_space(c: char) -> bool {
    let code = c as u32;
    ||| 0x09 <= code <= 0x0d
    ||| code == 0x20
    ||| code == 0x85
    ||| code == 0xa0
    ||| code == 0x1680
    ||| 0x2000 <= code <= 0x200a
    ||| code == 0x2028
    ||| code == 0x2029
    ||| code == 0x202f
    ||| code == 0x205f
    ||| code == 0x3000
}

/// `s` without the white space it starts with.
pub open spec fn trim_start(s: Seq<char>) -> Seq<char>
    decreases s.len(),
{
    if s.len() > 0 && is_space(s[0]) {
        trim_start(s.drop_first())
    } else {
        s
    }
}

/// `s` without the white space it ends with.
pub open spec fn trim_end(s: Seq<char>) -> Seq<char>
    decreases s.len(),
{
    if s.len() > 0 && is_space(s.last()) {
        trim_end(s.drop_last())
    } else {
        s
    }
}

/// `s` without the white space around it.
pub open spec fn trim(s: Seq<char>) -> Seq<char> {
    trim_end(trim_start(s))
}

/// The key that a name stands for. `None` is a name for no key; a text that
/// is no name stands for nothing.
pub open spec fn named(name: Seq<char>) -> Option<ModifiersState> {
    let none = ModifiersState::none();
    if name == "Command"@ || name == "Super"@ {
        Some(ModifiersState { logo: true, ..none })
    } else if name == "Shift"@ {
        Some(ModifiersState { shift: true, ..none })
    } else if name == "Alt"@ || name == "Option"@ {
        Some(ModifiersState { alt: true, ..none })
    } else if name == "Control"@ {
        Some(ModifiersState { ctrl: true, ..none })
    } else if name == "None"@ {
        Some(none)
    } else {
        None
    }
}

/// How many characters stand before the first `|` of `s`; the length of `s`
/// where it has none.
pub open spec fn first_bar(s: Seq<char>) -> int
    decreases s.len(),
{
    if s.len() == 0 || s[0] == '|' {
        0
    } else {
        1 + first_bar(s.drop_first())
    }
}

/// The keys that a text names. The text is a list of names with `|` between
/// them and, possibly, white space around each. The keys of all the names
/// are held together. A text with a part that is no name names nothing.
pub open spec fn modifiers_of(text: Seq<char>) -> Option<ModifiersState>
    decreases text.len(),
{
    let bar = first_bar(text);
    match named(trim(text.take(bar))) {
        None => None,
        Some(first) => if 0 <= bar < text.len() {
            match modifiers_of(text.skip(bar + 1)) {
                None => None,
                Some(rest) => Some(first.union(rest)),
            }
        } else {
            Some(first)
        },
    }
}

/// The first `|` of `s` stands where none stands before.
proof fn lemma_first_bar(s: Seq<char>, k: int)
    requires
        0 <= k <= s.len(),
        forall|i: int| 0 <= i < k ==> s[i] != '|',
        k < s.len() ==> s[k] == '|',
    ensures
        first_bar(s) == k,
    decreases k,
{
    if k > 0 {
        lemma_first_bar(s.drop_first(), k - 1);
    }
}

/// Trimming the start drops the white space up to the first other character.
proof fn lemma_trim_start(s: Seq<char>, k: int)
    requires
        0 <= k <= s.len(),
        forall|i: int| 0 <= i < k ==> is_space(s[i]),
        k < s.len() ==> !is_space(s[k]),
    ensures
        trim_start(s) == s.skip(k),
    decreases k,
{
    if k > 0 {
        lemma_trim_start(s.drop_first(), k - 1);
        assert(s.drop_first().skip(k - 1) =~= s.skip(k));
    } else {
        assert(s.skip(0) =~= s);
    }
}

/// Trimming the end drops the white space after the last other character.
proof fn lemma_trim_end(s: Seq<char>, k: int)
    requires
        0 <= k <= s.len(),
        forall|i: int| k <= i < s.len() ==> is_space(s[i]),
        k > 0 ==> !is_space(s[k - 1]),
    ensures
        trim_end(s) == s.take(k),
    decreases s.len() - k,
{
    if k < s.len() {
        lemma_trim_end(s.drop_last(), k);
        assert(s.drop_last().take(k) =~= s.take(k));
    } else {
        assert(s.take(k) =~= s);
    }
}

/// A text that neither starts nor ends with white space is trimmed already.
pub proof fn lemma_trim_clean(s: Seq<char>)
    requires
        s.len() > 0 ==> !is_space(s[0]) && !is_space(s.last()),
    ensures
        trim(s) == s,
{
    lemma_trim_start(s, 0);
    assert(s.skip(0) =~= s);
    lemma_trim_end(s, s.len() as int);
    assert(s.take(s.len() as int) =~= s);
}

/// A text without `|` is one name.
pub proof fn lemma_one_name(text: Seq<char>)
    requires
        forall|i: int| 0 <= i < text.len() ==> text[i] != '|',
    ensures
        modifiers_of(text) == named(trim(text)),
{
    lemma_first_bar(text, text.len() as int);
    assert(text.take(text.len() as int) =~= text);
}

/// The keys of a list are those of its first name together with those of
/// the list after the first `|`; the list names nothing where either does.
pub proof fn lemma_first_name(first: Seq<char>, rest: Seq<char>)
    requires
        forall|i: int| 0 <= i < first.len() ==> first[i] != '|',
    ensures
        modifiers_of(first + seq!['|'] + rest) == match (named(trim(first)), modifiers_of(rest)) {
            (Some(key), Some(others)) => Some(key.union(others)),
            _ => None,
        },
{
    let text = first + seq!['|'] + rest;
    lemma_first_bar(text, first.len() as int);
    assert(text.take(first.len() as int) =~= first);
    assert(text.skip(first.len() as int + 1) =~= rest);
}

/// Tests whether `c` is white space.
fn space(c: char) -> (yes: bool)
    ensures
        yes == is_space(c),
{
    let code = c as u32;
    (0x09 <= code && code <= 0x0d) || code == 0x20 || code == 0x85 || code == 0xa0 || code
        == 0x1680 || (0x2000 <= code && code <= 0x200a) || code == 0x2028 || code == 0x2029
        || code == 0x202f || code == 0x205f || code == 0x3000
}

/// The characters of a text, one by one.
fn chars_of(text: &str) -> (chars: Vec<char>)
    ensures
        chars@ == text@,
{
    let mut chars: Vec<char> = Vec::new();
    for c in it: text.chars()
        invariant
            chars@ == it.seq().take(it.index() as int),
            it.seq() == text@,
    {
        chars.push(c);
    }
    chars
}

/// Whether the characters from `from` up to `to` spell `word`.
fn spells(chars: &Vec<char>, from: usize, to: usize, word: &str) -> (yes: bool)
    requires
        from <= to <= chars@.len(),
    ensures
        yes == (chars@.subrange(from as int, to as int) == word@),
{
    let length = word.unicode_len();
    if to - from != length {
        return false;
    }
    let mut i: usize = 0;
    while i < length
        invariant
            i <= length,
            length == word@.len(),
            from + length == to,
            to <= chars@.len(),
            forall|j: int| 0 <= j < i ==> chars@[from + j] == word@[j],
        decreases length - i,
    {
        if chars[from + i] != word.get_char(i) {
            assert(chars@.subrange(from as int, to as int)[i as int] != word@[i as int]);
            return false;
        }
        i += 1;
    }
    assert(chars@.subrange(from as int, to as int) =~= word@);
    true
}

/// The key named by the characters from `from` up to `to`.
fn named_at(chars: &Vec<char>, from: usize, to: usize) -> (key: Option<ModifiersState>)
    requires
        from <= to <= chars@.len(),
    ensures
        key == named(chars@.subrange(from as int, to as int)),
{
    let none = ModifiersState::default();
    if spells(chars, from, to, "Command") || spells(chars, from, to, "Super") {
        Some(ModifiersState { logo: true, ..none })
    } else if spells(chars, from, to, "Shift") {
        Some(ModifiersState { shift: true, ..none })
    } else if spells(chars, from, to, "Alt") || spells(chars, from, to, "Option") {
        Some(ModifiersState { alt: true, ..none })
    } else if spells(chars, from, to, "Control") {
        Some(ModifiersState { ctrl: true, ..none })
    } else if spells(chars, from, to, "None") {
        Some(none)
    } else {
        None
    }
}

/// Where the characters from `from` up to `to` begin and end once the white
/// space around them is left out.
fn trim_bounds(chars: &Vec<char>, from: usize, to: usize) -> (bounds: (usize, usize))
    requires
        from <= to <= chars@.len(),
    ensures
        from <= bounds.0 <= bounds.1 <= to,
        chars@.subrange(bounds.0 as int, bounds.1 as int) == trim(
            chars@.subrange(from as int, to as int),
        ),
{
    let ghost part = chars@.subrange(from as int, to as int);
    let mut a = from;
    while a < to && space(chars[a])
        invariant
            from <= a <= to <= chars@.len(),
            forall|i: int| from <= i < a ==> is_space(chars@[i]),
        decreases to - a,
    {
        a += 1;
    }
    let mut b = to;
    while b > a && space(chars[b - 1])
        invariant
            a <= b <= to <= chars@.len(),
            forall|i: int| b <= i < to ==> is_space(chars@[i]),
        decreases b,
    {
        b -= 1;
    }
    proof {
        lemma_trim_start(part, a - from);
        let rest = part.skip(a - from);
        assert(rest =~= chars@.subrange(a as int, to as int));
        lemma_trim_end(rest, b - a);
        assert(rest.take(b - a) =~= chars@.subrange(a as int, b as int));
    }
    (a, b)
}

impl ModifiersState {
    /// Reads the keys that `text` names.
    pub fn parse(text: &str) -> (found: Option<ModifiersState>)
        ensures
            found == modifiers_of(text@),
    {
        let chars = chars_of(text);
        let n = chars.len();
        let mut held = ModifiersState::default();
        let mut start: usize = 0;
        assert(text@.skip(0) =~= text@);
        loop
            invariant
                start <= n,
                n == chars@.len(),
                chars@ == text@,
                modifiers_of(text@) == match modifiers_of(text@.skip(start as int)) {
                    None => None,
                    Some(rest) => Some(held.union(rest)),
                },
            decreases n - start,
        {
            let ghost tail = text@.skip(start as int);
            let mut end = start;
            while end < n && chars[end] != '|'
                invariant
                    start <= end <= n,
                    n == chars@.len(),
                    forall|i: int| start <= i < end ==> chars@[i] != '|',
                decreases n - end,
            {
                end += 1;
            }
            proof {
                lemma_first_bar(tail, end - start);
                assert(tail.take(end - start) =~= chars@.subrange(start as int, end as int));
                if end < n {
                    assert(tail.skip(end - start + 1) =~= text@.skip(end + 1));
                }
            }
            let (a, b) = trim_bounds(&chars, start, end);
            match named_at(&chars, a, b) {
                None => {
                    return None;
                },
                Some(key) => {
                    held = held.with(key);
                },
            }
            if end == n {
                return Some(held);
            }
            start = end + 1;
        }
    }
}

} // verus!
