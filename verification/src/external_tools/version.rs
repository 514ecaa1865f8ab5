//! Dotted versions: reading them out of text, writing them, and matching a
//! request against a candidate.

use crate::text::{
    append_decimal, char_is_digit, decimal_text, decimal_value, is_digit, lemma_decimal_text,
    to_chars,
};
use std::str::FromStr;
use vstd::prelude::*;
use vstd::string::StringExecFns;

verus! {

/// A dotted version of one to three components.
///
/// An absent component is a wildcard when two versions are matched.
#[derive(Debug, Clone, Copy, PartialEq, Eq, Ord, Structural)]
pub struct Version {
    pub major: u8,
    pub minor: Option<u8>,
    pub patch: Option<u8>,
}

/// Why a text holds no version.
#[derive(Debug, Clone, Copy, PartialEq, Eq, Structural)]
pub enum VersionParsingError {
    /// A component is no number of eight bits: it exceeds 255, or it is written
    /// with decimal digits of another script than `0` to `9`.
    OutOfRange,
    /// The text holds no decimal digit.
    VersionNotFound,
}

/// Two optional components agree when either is absent or both are equal.
pub open spec fn component_matches(a: Option<u8>, b: Option<u8>) -> bool {
    match (a, b) {
        (Some(x), Some(y)) => x == y,
        _ => true,
    }
}

fn components_match(a: Option<u8>, b: Option<u8>) -> (m: bool)
    ensures
        m == component_matches(a, b),
{
    match (a, b) {
        (Some(x), Some(y)) => x == y,
        _ => true,
    }
}

impl Version {
    /// Whether every component is present.
    pub open spec fn is_full(self) -> bool {
        self.minor is Some && self.patch is Some
    }

    /// Wildcard matching: the majors are equal, and the minors and the patches agree
    /// wherever both are present.
    pub open spec fn spec_matches(self, other: Version) -> bool {
        &&& self.major == other.major
        &&& component_matches(self.minor, other.minor)
        &&& component_matches(self.patch, other.patch)
    }

    /// Whether `self` and `other` match under the wildcard rule.
    pub fn matches(&self, other: &Version) -> (m: bool)
        ensures
            m == self.spec_matches(*other),
    {
        if self.major != other.major {
            return false;
        }
        if !components_match(self.minor, other.minor) {
            return false;
        }
        components_match(self.patch, other.patch)
    }
}

/// Whether the pattern `\d` of the `regex` crate matches the character: whether it
/// is a decimal digit of any script (the Unicode class `Nd`).
pub uninterp spec fn unicode_decimal_digit(c: char) -> bool;

/// Calls `Regex::new` with the pattern `\d` and `Regex::is_match` on the text that
/// holds `c` alone. The result is whether that pattern matches the character.
#[verifier::external_body]
fn is_unicode_decimal_digit(c: char) -> (b: bool)
    ensures
        b == unicode_decimal_digit(c),
{
    let mut buffer = [0u8; 4];
    regex::Regex::new(r"\d").unwrap().is_match(c.encode_utf8(&mut buffer))
}

/// The characters that can stand in a component: the digits `0` to `9`, and
/// beyond ASCII every decimal digit of another script. Only the former make a
/// number.
pub open spec fn is_version_digit(c: char) -> bool {
    is_digit(c) || (c as u32 >= 128 && unicode_decimal_digit(c))
}

fn char_is_version_digit(c: char) -> (b: bool)
    ensures
        b == is_version_digit(c),
{
    if (c as u32) < 128 {
        char_is_digit(c)
    } else {
        is_unicode_decimal_digit(c)
    }
}

/// Whether a run is written with the digits `0` to `9` alone.
pub open spec fn is_plain(run: Seq<char>) -> bool {
    forall|i: int| 0 <= i < run.len() ==> is_digit(#[trigger] run[i])
}

/// Whether `s[from..to]` is a number of eight bits: written with the digits `0`
/// to `9` alone, and no more than 255.
pub open spec fn is_byte(s: Seq<char>, from: int, to: int) -> bool {
    is_plain(s.subrange(from, to)) && decimal_value(s.subrange(from, to)) <= u8::MAX
}

/// The least index at or after `from` that holds a digit, if there is one.
pub open spec fn first_digit(s: Seq<char>, from: int) -> Option<int>
    decreases s.len() - from,
{
    if from < 0 || from >= s.len() {
        None
    } else if is_version_digit(s[from]) {
        Some(from)
    } else {
        first_digit(s, from + 1)
    }
}

/// The end of the longest run of digits that starts at `from`; `from` itself where
/// no digit stands there.
pub open spec fn digits_end(s: Seq<char>, from: int) -> int
    decreases s.len() - from,
{
    if 0 <= from < s.len() && is_version_digit(s[from]) {
        digits_end(s, from + 1)
    } else {
        from
    }
}

/// The index behind one dot at `at`, or `at` where no dot stands there.
pub open spec fn after_dot(s: Seq<char>, at: int) -> int {
    if 0 <= at < s.len() && s[at] == '.' {
        at + 1
    } else {
        at
    }
}

/// The number in `s[from..to]` as a component; absent where the range is empty.
pub open spec fn component(s: Seq<char>, from: int, to: int) -> Option<u8>
    recommends
        from < to ==> is_byte(s, from, to),
{
    if from < to {
        Some(decimal_value(s.subrange(from, to)) as u8)
    } else {
        None
    }
}

/// Where the patch component starts, given where the minor component stands: behind
/// one dot behind the minor component. Where there is no minor component there is
/// no patch component either, and it starts where it ends.
pub open spec fn patch_start(s: Seq<char>, minor_start: int, minor_end: int) -> int {
    if minor_start < minor_end {
        after_dot(s, minor_end)
    } else {
        minor_end
    }
}

/// The version that a text holds: `major[.minor[.patch]]`.
///
/// The major component is the first run of digits anywhere in the text. Behind it
/// may stand a dot and the digits of the minor component, and behind a minor
/// component a dot and the digits of the patch component. Each run is taken as
/// long as it goes, and whatever follows is ignored. A run that is no number of
/// eight bits makes the whole text out of range.
pub open spec fn parse_version(s: Seq<char>) -> Result<Version, VersionParsingError> {
    match first_digit(s, 0) {
        None => Err(VersionParsingError::VersionNotFound),
        Some(start) => {
            let major_end = digits_end(s, start);
            let minor_start = after_dot(s, major_end);
            let minor_end = digits_end(s, minor_start);
            let patch_start = patch_start(s, minor_start, minor_end);
            let patch_end = digits_end(s, patch_start);
            if is_byte(s, start, major_end) && (minor_start < minor_end ==> is_byte(
                s,
                minor_start,
                minor_end,
            )) && (patch_start < patch_end ==> is_byte(s, patch_start, patch_end)) {
                Ok(
                    Version {
                        major: decimal_value(s.subrange(start, major_end)) as u8,
                        minor: component(s, minor_start, minor_end),
                        patch: component(s, patch_start, patch_end),
                    },
                )
            } else {
                Err(VersionParsingError::OutOfRange)
            }
        },
    }
}

/// The text of a version: its present components as decimal numerals, joined by dots.
pub open spec fn format_version(v: Version) -> Seq<char> {
    decimal_text(v.major as nat) + (match v.minor {
        Some(minor) => seq!['.'] + decimal_text(minor as nat),
        None => Seq::<char>::empty(),
    }) + (match v.patch {
        Some(patch) => seq!['.'] + decimal_text(patch as nat),
        None => Seq::<char>::empty(),
    })
}

/// `first_digit` finds a digit, and no digit stands between the start and it.
proof fn lemma_first_digit(s: Seq<char>, from: int)
    requires
        0 <= from,
    ensures
        match first_digit(s, from) {
            Some(k) => from <= k < s.len() && is_version_digit(s[k]) && forall|j: int|
                from <= j < k ==> !is_version_digit(#[trigger] s[j]),
            None => forall|j: int| from <= j < s.len() ==> !is_version_digit(#[trigger] s[j]),
        },
    decreases s.len() - from,
{
    if from < s.len() && !is_version_digit(s[from]) {
        lemma_first_digit(s, from + 1);
    }
}

/// A run of digits that ends at the end of the text, or before a character that is
/// no digit, is the run that `digits_end` measures.
proof fn lemma_digits_end(s: Seq<char>, from: int, to: int)
    requires
        0 <= from <= to <= s.len(),
        forall|i: int| from <= i < to ==> is_version_digit(#[trigger] s[i]),
        to < s.len() ==> !is_version_digit(s[to]),
    ensures
        digits_end(s, from) == to,
    decreases to - from,
{
    if from < to {
        lemma_digits_end(s, from + 1, to);
    }
}

/// `digits_end` stays within the text, and only digits stand in the run it measures.
proof fn lemma_digits_end_is_run(s: Seq<char>, from: int)
    requires
        0 <= from <= s.len(),
    ensures
        from <= digits_end(s, from) <= s.len(),
        forall|i: int| from <= i < digits_end(s, from) ==> is_version_digit(#[trigger] s[i]),
        digits_end(s, from) < s.len() ==> !is_version_digit(s[digits_end(s, from)]),
    decreases s.len() - from,
{
    if from < s.len() && is_version_digit(s[from]) {
        lemma_digits_end_is_run(s, from + 1);
    }
}

/// Reading more digits never makes the number smaller.
proof fn lemma_decimal_value_grows(s: Seq<char>, from: int, mid: int, to: int)
    requires
        0 <= from <= mid <= to <= s.len(),
    ensures
        decimal_value(s.subrange(from, mid)) <= decimal_value(s.subrange(from, to)),
    decreases to - mid,
{
    if mid < to {
        lemma_decimal_value_grows(s, from, mid, to - 1);
        assert(s.subrange(from, to).drop_last() =~= s.subrange(from, to - 1));
    }
}

/// Every version matches itself.
pub proof fn lemma_matches_reflexive(v: Version)
    ensures
        v.spec_matches(v),
{
}

/// Matching does not depend on which side is the query.
pub proof fn lemma_matches_symmetric(a: Version, b: Version)
    ensures
        a.spec_matches(b) == b.spec_matches(a),
{
}

/// Two versions with all components present match only where they are equal.
pub proof fn lemma_full_versions_match_iff_equal(a: Version, b: Version)
    requires
        a.is_full(),
        b.is_full(),
    ensures
        a.spec_matches(b) <==> a == b,
{
}

/// A version whose trailing components are absent matches every version that
/// agrees with it on the components it has.
pub proof fn lemma_prefix_matches(query: Version, candidate: Version)
    requires
        query.major == candidate.major,
        query.minor is Some ==> query.minor == candidate.minor,
        query.patch is Some ==> query.patch == candidate.patch,
    ensures
        query.spec_matches(candidate),
{
}

/// A text holds no version exactly where it holds no digit.
pub proof fn lemma_not_found_iff_no_digit(s: Seq<char>)
    ensures
        parse_version(s) == Err::<Version, VersionParsingError>(
            VersionParsingError::VersionNotFound,
        ) <==> forall|i: int| 0 <= i < s.len() ==> !is_version_digit(#[trigger] s[i]),
{
    lemma_first_digit(s, 0);
}

/// The major component of the version that a text holds is the number of the
/// first run of digits in the text, taken as long as it goes.
pub proof fn lemma_major_is_first_run(s: Seq<char>)
    ensures
        parse_version(s) matches Ok(version) ==> exists|start: int, end: int|
            {
                &&& 0 <= start < end <= s.len()
                &&& forall|i: int| 0 <= i < start ==> !is_version_digit(#[trigger] s[i])
                &&& forall|i: int| start <= i < end ==> is_version_digit(#[trigger] s[i])
                &&& end < s.len() ==> !is_version_digit(s[end])
                &&& version.major == decimal_value(#[trigger] s.subrange(start, end))
            },
{
    lemma_first_digit(s, 0);
    if let Some(start) = first_digit(s, 0) {
        lemma_digits_end_is_run(s, start);
    }
}

/// A version that was read has a minor component exactly where a dot and a digit
/// stand behind the major component, and a patch component exactly where it has
/// a minor component and a dot and a digit stand behind that.
pub proof fn lemma_components_follow_dots(s: Seq<char>)
    ensures
        parse_version(s) matches Ok(version) ==> {
            let start = first_digit(s, 0)->0;
            let major_end = digits_end(s, start);
            let minor_end = digits_end(s, major_end + 1);
            &&& version.minor is Some <==> major_end + 1 < s.len() && s[major_end] == '.'
                && is_version_digit(s[major_end + 1])
            &&& version.minor matches Some(minor) ==> minor == decimal_value(
                s.subrange(major_end + 1, minor_end),
            )
            &&& version.patch is Some <==> version.minor is Some && minor_end + 1 < s.len()
                && s[minor_end] == '.' && is_version_digit(s[minor_end + 1])
            &&& version.patch matches Some(patch) ==> patch == decimal_value(
                s.subrange(minor_end + 1, digits_end(s, minor_end + 1)),
            )
        },
{
    lemma_first_digit(s, 0);
    if let Some(start) = first_digit(s, 0) {
        lemma_digits_end_is_run(s, start);
        let major_end = digits_end(s, start);
        let minor_start = after_dot(s, major_end);
        lemma_digits_end_is_run(s, minor_start);
        let minor_end = digits_end(s, minor_start);
        let patch_start = patch_start(s, minor_start, minor_end);
        lemma_digits_end_is_run(s, patch_start);
    }
}

/// No version that was read has a patch component without a minor component, so
/// every version that was read is read back from its own text.
pub proof fn lemma_parsed_version_reads_back(s: Seq<char>)
    ensures
        parse_version(s) matches Ok(version) ==> {
            &&& version.minor is None ==> version.patch is None
            &&& parse_version(format_version(version)) == Ok::<Version, VersionParsingError>(
                version,
            )
        },
{
    if let Ok(version) = parse_version(s) {
        let start = first_digit(s, 0)->0;
        lemma_first_digit(s, 0);
        lemma_digits_end_is_run(s, start);
        lemma_digits_end_is_run(s, after_dot(s, digits_end(s, start)));
        lemma_parse_inverts_format(version);
    }
}

/// A numeral followed by the end of the text or by a dot is read back whole.
proof fn lemma_numeral_is_run(t: Seq<char>, from: int, n: nat)
    requires
        0 <= from,
        from + decimal_text(n).len() <= t.len(),
        t.subrange(from, from + decimal_text(n).len()) == decimal_text(n),
        from + decimal_text(n).len() < t.len() ==> t[from + decimal_text(n).len()] == '.',
    ensures
        digits_end(t, from) == from + decimal_text(n).len(),
        decimal_value(t.subrange(from, digits_end(t, from))) == n,
        is_plain(t.subrange(from, digits_end(t, from))),
        is_version_digit(t[from]),
{
    let d = decimal_text(n);
    lemma_decimal_text(n);
    assert forall|i: int| from <= i < from + d.len() implies is_version_digit(
        #[trigger] t[i],
    ) by {
        assert(t[i] == t.subrange(from, from + d.len())[i - from]);
    }
    lemma_digits_end(t, from, from + d.len());
}

/// Reading the text of a version gives that version back, for every version in
/// which no component is present behind an absent one.
pub proof fn lemma_parse_inverts_format(v: Version)
    requires
        v.minor is None ==> v.patch is None,
    ensures
        parse_version(format_version(v)) == Ok::<Version, VersionParsingError>(v),
{
    let t = format_version(v);
    let d1 = decimal_text(v.major as nat);
    let a = d1.len() as int;
    assert(t.subrange(0, a) =~= d1);
    lemma_numeral_is_run(t, 0, v.major as nat);
    match v.minor {
        None => {
        },
        Some(minor) => {
            let d2 = decimal_text(minor as nat);
            let b = a + 1 + d2.len();
            assert(t.subrange(a + 1, b) =~= d2);
            match v.patch {
                None => {
                    lemma_numeral_is_run(t, a + 1, minor as nat);
                },
                Some(patch) => {
                    let d3 = decimal_text(patch as nat);
                    lemma_numeral_is_run(t, a + 1, minor as nat);
                    assert(t.subrange(b + 1, b + 1 + d3.len()) =~= d3);
                    lemma_numeral_is_run(t, b + 1, patch as nat);
                },
            }
        },
    }
}

fn scan_first_digit(chars: &Vec<char>) -> (found: Option<usize>)
    ensures
        match found {
            Some(k) => first_digit(chars@, 0) == Some(k as int) && k < chars.len(),
            None => first_digit(chars@, 0) is None,
        },
{
    let mut i: usize = 0;
    while i < chars.len()
        invariant
            i <= chars.len(),
            first_digit(chars@, 0) == first_digit(chars@, i as int),
        decreases chars.len() - i,
    {
        if char_is_version_digit(chars[i]) {
            return Some(i);
        }
        i += 1;
    }
    None
}

fn scan_digits_end(chars: &Vec<char>, from: usize) -> (end: usize)
    requires
        from <= chars.len(),
    ensures
        end == digits_end(chars@, from as int),
        from <= end <= chars.len(),
        forall|i: int| from <= i < end ==> is_version_digit(#[trigger] chars@[i]),
{
    let mut i: usize = from;
    while i < chars.len() && char_is_version_digit(chars[i])
        invariant
            from <= i <= chars.len(),
            digits_end(chars@, from as int) == digits_end(chars@, i as int),
            forall|j: int| from <= j < i ==> is_version_digit(#[trigger] chars@[j]),
        decreases chars.len() - i,
    {
        i += 1;
    }
    i
}

fn skip_dot(chars: &Vec<char>, at: usize) -> (next: usize)
    requires
        at <= chars.len(),
    ensures
        next == after_dot(chars@, at as int),
        at <= next <= chars.len(),
{
    if at < chars.len() && chars[at] == '.' {
        at + 1
    } else {
        at
    }
}

/// The number in `chars[from..to]` where that is a number of eight bits.
fn read_number(chars: &Vec<char>, from: usize, to: usize) -> (value: Option<u8>)
    requires
        from <= to <= chars.len(),
    ensures
        value == (if is_byte(chars@, from as int, to as int) {
            Some(decimal_value(chars@.subrange(from as int, to as int)) as u8)
        } else {
            None
        }),
{
    let ghost run = chars@.subrange(from as int, to as int);
    let mut acc: u32 = 0;
    let mut i: usize = from;
    while i < to
        invariant
            from <= i <= to <= chars.len(),
            run == chars@.subrange(from as int, to as int),
            is_plain(chars@.subrange(from as int, i as int)),
            acc == decimal_value(chars@.subrange(from as int, i as int)),
            acc <= u8::MAX,
        decreases to - i,
    {
        let c = chars[i];
        if !char_is_digit(c) {
            assert(run[i - from] == c);
            return None;
        }
        let digit: u32 = c as u32 - '0' as u32;
        proof {
            assert(chars@.subrange(from as int, i + 1).drop_last() =~= chars@.subrange(
                from as int,
                i as int,
            ));
            assert forall|j: int| 0 <= j < i + 1 - from implies is_digit(
                #[trigger] chars@.subrange(from as int, i + 1)[j],
            ) by {
                if j < i - from {
                    assert(chars@.subrange(from as int, i as int)[j] == chars@[from + j]);
                }
            }
        }
        let next: u32 = acc * 10 + digit;
        if next > 255 {
            proof {
                lemma_decimal_value_grows(chars@, from as int, i + 1, to as int);
            }
            return None;
        }
        acc = next;
        i += 1;
    }
    Some(acc as u8)
}

/// The optional number in `chars[from..to]`: absent where the range is empty, an
/// error where the range is no number of eight bits.
fn read_component(chars: &Vec<char>, from: usize, to: usize) -> (value: Result<
    Option<u8>,
    VersionParsingError,
>)
    requires
        from <= to <= chars.len(),
    ensures
        value == (if from < to ==> is_byte(chars@, from as int, to as int) {
            Ok::<Option<u8>, VersionParsingError>(component(chars@, from as int, to as int))
        } else {
            Err(VersionParsingError::OutOfRange)
        }),
{
    if from == to {
        return Ok(None);
    }
    match read_number(chars, from, to) {
        Some(n) => Ok(Some(n)),
        None => Err(VersionParsingError::OutOfRange),
    }
}

impl Version {
    /// Reads the first version that `s` holds.
    ///
    /// Fails with `VersionNotFound` where `s` holds no digit, and with `OutOfRange`
    /// where a component is no number of eight bits.
    pub fn from_str(s: &str) -> (parsed: Result<Version, VersionParsingError>)
        ensures
            parsed == parse_version(s@),
    {
        let chars = to_chars(s);
        let start = match scan_first_digit(&chars) {
            Some(start) => start,
            None => {
                return Err(VersionParsingError::VersionNotFound);
            },
        };
        let major_end = scan_digits_end(&chars, start);
        let minor_start = skip_dot(&chars, major_end);
        let minor_end = scan_digits_end(&chars, minor_start);
        let patch_start = if minor_start < minor_end {
            skip_dot(&chars, minor_end)
        } else {
            minor_end
        };
        let patch_end = scan_digits_end(&chars, patch_start);
        let major = match read_number(&chars, start, major_end) {
            Some(major) => major,
            None => {
                return Err(VersionParsingError::OutOfRange);
            },
        };
        let minor = match read_component(&chars, minor_start, minor_end) {
            Ok(minor) => minor,
            Err(e) => {
                return Err(e);
            },
        };
        let patch = match read_component(&chars, patch_start, patch_end) {
            Ok(patch) => patch,
            Err(e) => {
                return Err(e);
            },
        };
        Ok(Version { major, minor, patch })
    }

    /// The text of this version: see [`format_version`].
    pub fn to_string(&self) -> (text: String)
        ensures
            text@ == format_version(*self),
    {
        let mut text = String::new();
        append_decimal(&mut text, self.major as u64);
        proof {
            reveal_strlit(".");
        }
        if let Some(minor) = self.minor {
            text.append(".");
            append_decimal(&mut text, minor as u64);
        }
        if let Some(patch) = self.patch {
            text.append(".");
            append_decimal(&mut text, patch as u64);
        }
        text
    }
}

impl FromStr for Version {
    type Err = VersionParsingError;

    fn from_str(s: &str) -> (parsed: Result<Self, Self::Err>)
        ensures
            parsed == parse_version(s@),
    {
        Version::from_str(s)
    }
}

} // verus!
