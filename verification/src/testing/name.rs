//! Validated, portable logical snapshot names.

use std::str::FromStr;

use vstd::prelude::*;

use crate::text::chars_of;

verus! {

// ---------------------------------------------------------------------------
// Grammar
// ---------------------------------------------------------------------------

pub open spec fn is_ascii_alphanumeric(c: char) -> bool {
    ('0' as u32 <= c as u32 <= '9' as u32) || ('a' as u32 <= c as u32 <= 'z' as u32) || (
    'A' as u32 <= c as u32 <= 'Z' as u32)
}

/// A character allowed after the first one of a component.
pub open spec fn is_component_char(c: char) -> bool {
    is_ascii_alphanumeric(c) || c == '.' || c == '_' || c == '-'
}

pub open spec fn ascii_upper(c: char) -> char {
    if 'a' as u32 <= c as u32 <= 'z' as u32 {
        ((c as u32) - 32) as char
    } else {
        c
    }
}

pub open spec fn ascii_lower(c: char) -> char {
    if 'A' as u32 <= c as u32 <= 'Z' as u32 {
        ((c as u32) + 32) as char
    } else {
        c
    }
}

/// Index of the first `'.'` of `component`, or its length when it has none.
pub open spec fn first_dot(component: Seq<char>) -> nat
    decreases component.len(),
{
    if component.len() == 0 {
        0
    } else if component[0] == '.' {
        0
    } else {
        1 + first_dot(component.drop_first())
    }
}

/// The part of a component before its first `'.'`, in upper case.
pub open spec fn upper_stem(component: Seq<char>) -> Seq<char> {
    component.take(first_dot(component) as int).map_values(|c: char| ascii_upper(c))
}

/// `component` names a reserved Windows device (`CON`, `PRN`, `AUX`, `NUL`,
/// `COM1`..`COM9`, `LPT1`..`LPT9`), ignoring case and any extension.
pub open spec fn is_windows_device_name(component: Seq<char>) -> bool {
    let stem = upper_stem(component);
    ||| stem == seq!['C', 'O', 'N']
    ||| stem == seq!['P', 'R', 'N']
    ||| stem == seq!['A', 'U', 'X']
    ||| stem == seq!['N', 'U', 'L']
    ||| stem.len() == 4 && (stem.take(3) == seq!['C', 'O', 'M'] || stem.take(3) == seq![
        'L',
        'P',
        'T',
    ]) && '1' as u32 <= stem[3] as u32 <= '9' as u32
}

/// `first_dot` is the position of the first `'.'`, or the length.
proof fn lemma_first_dot(component: Seq<char>)
    ensures
        first_dot(component) <= component.len(),
        forall|i: int| 0 <= i < first_dot(component) ==> component[i] != '.',
        first_dot(component) < component.len() ==> component[first_dot(component) as int] == '.',
    decreases component.len(),
{
    if component.len() > 0 && component[0] != '.' {
        let rest = component.drop_first();
        lemma_first_dot(rest);
        assert forall|i: int| 0 <= i < first_dot(component) implies component[i] != '.' by {
            if i > 0 {
                assert(component[i] == rest[i - 1]);
            }
        }
        if first_dot(component) < component.len() {
            assert(component[first_dot(component) as int] == rest[first_dot(rest) as int]);
        }
    }
}

/// Upper-casing maps a character to a digit only when it already is that digit.
proof fn lemma_upper_digit(c: char)
    requires
        '1' as u32 <= ascii_upper(c) as u32 <= '9' as u32,
    ensures
        '1' as u32 <= c as u32 <= '9' as u32,
{
}

/// A reserved device name is short: the part of the component before its
/// first `'.'` (or the whole component) has three characters, or four of
/// which the last is a digit from `1` to `9`. In particular no component whose
/// first five characters hold no `'.'` is reserved, whatever they spell.
pub proof fn law_device_names_have_short_stems(component: Seq<char>)
    requires
        is_windows_device_name(component),
    ensures
        component.len() >= 3,
        forall|i: int| 0 <= i < 3 ==> component[i] != '.',
        component.len() == 3 || component[3] == '.' || ({
            &&& '1' as u32 <= component[3] as u32 <= '9' as u32
            &&& component.len() == 4 || component[4] == '.'
        }),
{
    lemma_first_dot(component);
    let k = first_dot(component);
    let stem = upper_stem(component);
    assert(stem.len() == k);
    if k == 4 {
        assert(stem[3] == ascii_upper(component[3]));
        lemma_upper_digit(component[3]);
    }
}

/// The final component ends in `.png`, ignoring ASCII case.
pub open spec fn has_png_suffix(component: Seq<char>) -> bool {
    let n = component.len() as int;
    &&& n >= 4
    &&& component[n - 4] == '.'
    &&& ascii_lower(component[n - 3]) == 'p'
    &&& ascii_lower(component[n - 2]) == 'n'
    &&& ascii_lower(component[n - 1]) == 'g'
}

/// The first rule of the component grammar that `component` breaks.
pub open spec fn component_error(component: Seq<char>) -> Option<NameRule> {
    if component.len() == 0 {
        Some(NameRule::EmptyComponent)
    } else if !(is_ascii_alphanumeric(component[0]) || component[0] == '_') {
        Some(NameRule::InvalidStart)
    } else if exists|i: int| 1 <= i < component.len() && !is_component_char(#[trigger] component[i]) {
        Some(NameRule::InvalidCharacter)
    } else if component.last() == '.' {
        Some(NameRule::TrailingDot)
    } else if is_windows_device_name(component) {
        Some(NameRule::ReservedDeviceName)
    } else {
        None
    }
}

/// End of the component that starts at `start`: the next `'/'`, or the end of `name`.
pub open spec fn component_end(name: Seq<char>, start: int) -> int
    decreases name.len() - start,
{
    if start >= name.len() {
        name.len() as int
    } else if name[start] == '/' {
        start
    } else {
        component_end(name, start + 1)
    }
}

pub proof fn lemma_component_end(name: Seq<char>, start: int)
    requires
        0 <= start <= name.len(),
    ensures
        start <= component_end(name, start) <= name.len(),
        forall|i: int| start <= i < component_end(name, start) ==> name[i] != '/',
        component_end(name, start) < name.len() ==> name[component_end(name, start)] == '/',
    decreases name.len() - start,
{
    if start < name.len() && name[start] != '/' {
        lemma_component_end(name, start + 1);
    }
}

/// The first rule broken by the components of `name` from `start` on.
pub open spec fn components_error_from(name: Seq<char>, start: int) -> Option<NameRule>
    decreases name.len() - start,
{
    if start < 0 || start > name.len() {
        None
    } else {
        let end = component_end(name, start);
        proof {
            lemma_component_end(name, start);
        }
        match component_error(name.subrange(start, end)) {
            Some(rule) => Some(rule),
            None => if end < name.len() {
                components_error_from(name, end + 1)
            } else {
                None
            },
        }
    }
}

/// The last component of `name` among those from `start` on.
pub open spec fn last_component_from(name: Seq<char>, start: int) -> Seq<char>
    decreases name.len() - start,
{
    if start < 0 || start > name.len() {
        Seq::empty()
    } else {
        let end = component_end(name, start);
        proof {
            lemma_component_end(name, start);
        }
        if end < name.len() {
            last_component_from(name, end + 1)
        } else {
            name.subrange(start, end)
        }
    }
}

/// The first rule of the snapshot-name grammar that `name` breaks, or `None` when
/// `name` is a valid snapshot name.
pub open spec fn name_error(name: Seq<char>) -> Option<NameRule> {
    if name.len() == 0 {
        Some(NameRule::EmptyName)
    } else {
        match components_error_from(name, 0) {
            Some(rule) => Some(rule),
            None => if has_png_suffix(last_component_from(name, 0)) {
                Some(NameRule::PngExtension)
            } else {
                None
            },
        }
    }
}

/// A rule of the snapshot-name grammar.
#[derive(Clone, Copy, Debug, PartialEq, Eq, Structural)]
pub enum NameRule {
    EmptyName,
    EmptyComponent,
    InvalidStart,
    InvalidCharacter,
    TrailingDot,
    ReservedDeviceName,
    PngExtension,
}

/// The stable explanation of each rule.
pub open spec fn rule_reason(rule: NameRule) -> Seq<char> {
    match rule {
        NameRule::EmptyName => "the name must not be empty"@,
        NameRule::EmptyComponent => "path components must not be empty"@,
        NameRule::InvalidStart => "each component must start with an ASCII letter, digit, or underscore"@,
        NameRule::InvalidCharacter => "components may contain only ASCII letters, digits, '.', '_', and '-'"@,
        NameRule::TrailingDot => "components must not end in '.'"@,
        NameRule::ReservedDeviceName => "components must not use a reserved Windows device name"@,
        NameRule::PngExtension => "the logical name must not include the .png extension"@,
    }
}


proof fn lemma_components_valid_from(name: Seq<char>, start: int)
    requires
        0 <= start <= name.len(),
        components_error_from(name, start) is None,
    ensures
        start < name.len(),
        name[start] != '/',
        name[start] != '.',
        name.last() != '/',
        forall|i: int| start <= i < name.len() ==> is_component_char(#[trigger] name[i]) || name[i] == '/',
        forall|i: int|
            start <= i < name.len() && #[trigger] name[i] == '/' ==> i + 1 < name.len() && name[i + 1] != '/'
                && name[i + 1] != '.',
    decreases name.len() - start,
{
    lemma_component_end(name, start);
    let end = component_end(name, start);
    let component = name.subrange(start, end);
    assert(component_error(component) is None);
    assert(component.len() > 0);
    assert(component[0] == name[start]);
    assert forall|i: int| start <= i < end implies is_component_char(#[trigger] name[i]) by {
        if i > start {
            assert(component[i - start] == name[i]);
            if !is_component_char(component[i - start]) {
                assert(component_error(component) is Some);
            }
        }
    }
    if end < name.len() {
        lemma_components_valid_from(name, end + 1);
    } else {
        assert(name.last() == component.last());
        assert(is_component_char(name[name.len() - 1]));
    }
}

/// A valid snapshot name is a relative path that cannot leave the directory it is
/// joined to: it is non-empty, neither starts nor ends with `/`, holds no empty
/// component and no component that starts with `.` (so neither `.` nor `..`), and
/// consists only of ASCII letters, digits, `.`, `_`, `-` and `/`.
pub proof fn law_valid_names_stay_below_their_root(name: Seq<char>)
    requires
        name_error(name) is None,
    ensures
        name.len() > 0,
        name[0] != '/',
        name[0] != '.',
        name.last() != '/',
        forall|i: int| 0 <= i < name.len() ==> is_component_char(#[trigger] name[i]) || name[i] == '/',
        forall|i: int|
            0 <= i < name.len() && #[trigger] name[i] == '/' ==> i + 1 < name.len() && name[i + 1] != '/'
                && name[i + 1] != '.',
{
    lemma_components_valid_from(name, 0);
}

// ---------------------------------------------------------------------------
// Names
// ---------------------------------------------------------------------------

/// Validated, portable logical name for one snapshot.
///
/// Names consist of `/`-separated components. Each component starts with an
/// ASCII letter, digit, or underscore and then contains only ASCII letters,
/// digits, `.`, `_`, or `-`. Components may not end in `.`, and Windows device
/// names and an explicit `.png` suffix are rejected. The suffix is added by
/// the store.
#[derive(Debug, Eq, Hash, Ord, PartialEq, PartialOrd)]
pub struct SnapshotName {
    value: String,
}

impl SnapshotName {
    #[verifier::type_invariant]
    spec fn is_valid(self) -> bool {
        name_error(self.value@) is None
    }

    /// The characters of the name.
    pub closed spec fn view_chars(&self) -> Seq<char> {
        self.value@
    }

    /// Parses and validates a logical snapshot name.
    ///
    /// Returns an error when the name is empty, contains an empty or reserved
    /// component, or falls outside the documented portable grammar.
    pub fn new(value: &str) -> (r: Result<Self, InvalidSnapshotName>)
        ensures
            r is Ok <==> name_error(value@) is None,
            r matches Ok(name) ==> name.view_chars() == value@,
            r matches Err(e) ==> e.value_chars() == value@ && Some(e.rule()) == name_error(value@),
    {
        match validate_name(value) {
            Ok(()) => Ok(SnapshotName { value: value.to_owned() }),
            Err(e) => Err(e),
        }
    }

    /// Returns the validated logical name without a `.png` suffix.
    pub fn as_str(&self) -> (r: &str)
        ensures
            r@ == self.view_chars(),
            name_error(r@) is None,
    {
        proof {
            use_type_invariant(self);
        }
        self.value.as_str()
    }
}

impl Clone for SnapshotName {
    fn clone(&self) -> (r: Self)
        ensures
            r.view_chars() == self.view_chars(),
    {
        proof {
            use_type_invariant(self);
        }
        SnapshotName { value: self.value.clone() }
    }
}

impl FromStr for SnapshotName {
    type Err = InvalidSnapshotName;

    fn from_str(value: &str) -> (r: Result<Self, Self::Err>)
        ensures
            r is Ok <==> name_error(value@) is None,
            r matches Ok(name) ==> name.view_chars() == value@,
            r matches Err(e) ==> e.value_chars() == value@ && Some(e.rule()) == name_error(value@),
    {
        SnapshotName::new(value)
    }
}

/// A logical snapshot name does not satisfy the portable identifier grammar.
#[derive(Clone, Debug, Eq, PartialEq)]
pub struct InvalidSnapshotName {
    value: String,
    rule: NameRule,
}

impl InvalidSnapshotName {
    pub closed spec fn value_chars(&self) -> Seq<char> {
        self.value@
    }

    pub closed spec fn spec_rule(&self) -> NameRule {
        self.rule
    }

    /// Returns the rejected input.
    pub fn value(&self) -> (r: &str)
        ensures
            r@ == self.value_chars(),
    {
        self.value.as_str()
    }

    /// Returns the grammar rule that the input broke.
    #[verifier::when_used_as_spec(spec_rule)]
    pub fn rule(&self) -> (r: NameRule)
        ensures
            r == self.spec_rule(),
    {
        self.rule
    }

    /// Returns a stable human-readable explanation.
    pub fn reason(&self) -> (r: &'static str)
        ensures
            r@ == rule_reason(self.rule()),
    {
        match self.rule {
            NameRule::EmptyName => "the name must not be empty",
            NameRule::EmptyComponent => "path components must not be empty",
            NameRule::InvalidStart => "each component must start with an ASCII letter, digit, or underscore",
            NameRule::InvalidCharacter => "components may contain only ASCII letters, digits, '.', '_', and '-'",
            NameRule::TrailingDot => "components must not end in '.'",
            NameRule::ReservedDeviceName => "components must not use a reserved Windows device name",
            NameRule::PngExtension => "the logical name must not include the .png extension",
        }
    }
}

fn invalid(value: &str, rule: NameRule) -> (r: InvalidSnapshotName)
    ensures
        r.value_chars() == value@,
        r.rule() == rule,
{
    InvalidSnapshotName { value: value.to_owned(), rule }
}

fn is_ascii_alphanumeric_char(c: char) -> (r: bool)
    ensures
        r == is_ascii_alphanumeric(c),
{
    ('0' <= c && c <= '9') || ('a' <= c && c <= 'z') || ('A' <= c && c <= 'Z')
}

fn validate_name(value: &str) -> (r: Result<(), InvalidSnapshotName>)
    ensures
        r is Ok <==> name_error(value@) is None,
        r matches Err(e) ==> e.value_chars() == value@ && Some(e.rule()) == name_error(value@),
{
    let chars = chars_of(value);
    let n = chars.len();
    if n == 0 {
        return Err(invalid(value, NameRule::EmptyName));
    }
    let ghost name = chars@;
    let mut start: usize = 0;
    loop
        invariant
            name == chars@,
            name == value@,
            n == name.len(),
            n > 0,
            0 <= start <= n,
            components_error_from(name, 0) == components_error_from(name, start as int),
            last_component_from(name, 0) == last_component_from(name, start as int),
        decreases n - start,
    {
        let end = component_end_at(&chars, start);
        proof {
            lemma_component_end(name, start as int);
        }
        match validate_component(&chars, start, end) {
            Some(rule) => {
                assert(components_error_from(name, start as int) == Some(rule));
                assert(name_error(value@) == Some(rule));
                let e = invalid(value, rule);
                return Err(e);
            },
            None => {},
        }
        if end == n {
            if has_png_suffix_at(&chars, start, end) {
                return Err(invalid(value, NameRule::PngExtension));
            }
            return Ok(());
        }
        start = end + 1;
    }
}

pub(crate) fn component_end_at(chars: &Vec<char>, start: usize) -> (r: usize)
    requires
        start <= chars@.len(),
    ensures
        r == component_end(chars@, start as int),
{
    let mut i = start;
    while i < chars.len() && chars[i] != '/'
        invariant
            start <= i <= chars@.len(),
            component_end(chars@, start as int) == component_end(chars@, i as int),
        decreases chars@.len() - i,
    {
        i += 1;
    }
    i
}

fn validate_component(chars: &Vec<char>, start: usize, end: usize) -> (r: Option<NameRule>)
    requires
        start <= end <= chars@.len(),
    ensures
        r == component_error(chars@.subrange(start as int, end as int)),
{
    let ghost component = chars@.subrange(start as int, end as int);
    if start == end {
        return Some(NameRule::EmptyComponent);
    }
    let first = chars[start];
    if !is_ascii_alphanumeric_char(first) && first != '_' {
        return Some(NameRule::InvalidStart);
    }
    assert(component[0] == first);
    let mut i = start + 1;
    while i < end
        invariant
            start < i <= end,
            end <= chars@.len(),
            component == chars@.subrange(start as int, end as int),
            is_ascii_alphanumeric(component[0]) || component[0] == '_',
            forall|j: int| 1 <= j < i - start ==> is_component_char(#[trigger] component[j]),
        decreases end - i,
    {
        let c = chars[i];
        if !(is_ascii_alphanumeric_char(c) || c == '.' || c == '_' || c == '-') {
            assert(component[i - start] == c);
            assert(!is_component_char(component[i - start]));
            return Some(NameRule::InvalidCharacter);
        }
        i += 1;
    }
    if chars[end - 1] == '.' {
        return Some(NameRule::TrailingDot);
    }
    if is_windows_device_name_at(chars, start, end) {
        return Some(NameRule::ReservedDeviceName);
    }
    None
}

fn upper_char(c: char) -> (r: char)
    ensures
        r == ascii_upper(c),
{
    if 'a' <= c && c <= 'z' {
        let code: u8 = c as u8 - 32;
        code as char
    } else {
        c
    }
}

pub(crate) fn lower_char(c: char) -> (r: char)
    ensures
        r == ascii_lower(c),
{
    if 'A' <= c && c <= 'Z' {
        let code: u8 = c as u8 + 32;
        code as char
    } else {
        c
    }
}

fn is_windows_device_name_at(chars: &Vec<char>, start: usize, end: usize) -> (r: bool)
    requires
        start <= end <= chars@.len(),
    ensures
        r == is_windows_device_name(chars@.subrange(start as int, end as int)),
{
    let ghost component = chars@.subrange(start as int, end as int);
    let mut dot = start;
    assert(component.skip(0) =~= component);
    while dot < end && chars[dot] != '.'
        invariant
            start <= dot <= end,
            end <= chars@.len(),
            component == chars@.subrange(start as int, end as int),
            first_dot(component) == (dot - start) + first_dot(component.skip(dot - start)),
        decreases end - dot,
    {
        assert(component.skip(dot - start).drop_first() =~= component.skip(dot - start + 1));
        dot += 1;
    }
    assert(first_dot(component) == dot - start) by {
        if dot < end {
            assert(component.skip(dot - start)[0] == '.');
        } else {
            assert(component.skip(dot - start).len() == 0);
        }
    }
    let ghost stem = upper_stem(component);
    let len = dot - start;
    assert(stem.len() == len);
    assert(forall|k: int| 0 <= k < len ==> #[trigger] stem[k] == ascii_upper(chars@[start + k]));
    if len == 3 {
        let a = upper_char(chars[start]);
        let b = upper_char(chars[start + 1]);
        let c = upper_char(chars[start + 2]);
        let hit = (a == 'C' && b == 'O' && c == 'N') || (a == 'P' && b == 'R' && c == 'N') || (a
            == 'A' && b == 'U' && c == 'X') || (a == 'N' && b == 'U' && c == 'L');
        assert(hit ==> is_windows_device_name(component)) by {
            if a == 'C' && b == 'O' && c == 'N' {
                assert(stem =~= seq!['C', 'O', 'N']);
            }
            if a == 'P' && b == 'R' && c == 'N' {
                assert(stem =~= seq!['P', 'R', 'N']);
            }
            if a == 'A' && b == 'U' && c == 'X' {
                assert(stem =~= seq!['A', 'U', 'X']);
            }
            if a == 'N' && b == 'U' && c == 'L' {
                assert(stem =~= seq!['N', 'U', 'L']);
            }
        }
        assert(!hit ==> !is_windows_device_name(component)) by {
            if !hit {
                assert(stem[0] == a && stem[1] == b && stem[2] == c);
            }
        }
        hit
    } else if len == 4 {
        let a = upper_char(chars[start]);
        let b = upper_char(chars[start + 1]);
        let c = upper_char(chars[start + 2]);
        let d = chars[start + 3];
        let hit = ((a == 'C' && b == 'O' && c == 'M') || (a == 'L' && b == 'P' && c == 'T'))
            && '1' <= d && d <= '9';
        assert(stem[3] == ascii_upper(d));
        assert(hit ==> is_windows_device_name(component)) by {
            if a == 'C' && b == 'O' && c == 'M' {
                assert(stem.take(3) =~= seq!['C', 'O', 'M']);
            }
            if a == 'L' && b == 'P' && c == 'T' {
                assert(stem.take(3) =~= seq!['L', 'P', 'T']);
            }
        }
        assert(!hit ==> !is_windows_device_name(component)) by {
            if !hit {
                assert(stem.take(3)[0] == a && stem.take(3)[1] == b && stem.take(3)[2] == c);
            }
        }
        hit
    } else {
        false
    }
}

fn has_png_suffix_at(chars: &Vec<char>, start: usize, end: usize) -> (r: bool)
    requires
        start <= end <= chars@.len(),
    ensures
        r == has_png_suffix(chars@.subrange(start as int, end as int)),
{
    if end - start < 4 {
        return false;
    }
    chars[end - 4] == '.' && lower_char(chars[end - 3]) == 'p' && lower_char(chars[end - 2]) == 'n'
        && lower_char(chars[end - 1]) == 'g'
}

} // verus!
