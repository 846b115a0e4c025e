//! Validation of the values the user enters, with the messages shown for each
//! rejection.
use vstd::prelude::*;
use vstd::string::*;

use crate::text::{ascii_lowercase, contains_char, lowercase, owned, str_eq, trim_str, trimmed};
use crate::types::InstallConfig;

verus! {

/// Partition sizes: a positive number without leading zero and a unit letter.
pub const SIZE_PATTERN: &'static str = "^[1-9][0-9]*(K|M|G|T)$";

/// Host names: a letter or digit, then up to 62 letters, digits or dashes.
pub const HOSTNAME_PATTERN: &'static str = "^[A-Za-z0-9][A-Za-z0-9-]{0,62}$";

/// Keyboard layouts: one or more letters, digits, underscores or dashes.
pub const KEYBOARD_LAYOUT_PATTERN: &'static str = "^[A-Za-z0-9_-]+$";

/// User names: a lower-case letter or underscore, then lower-case letters,
/// digits, underscores or dashes.
pub const USERNAME_PATTERN: &'static str = "^[a-z_][a-z0-9_-]*$";

pub open spec fn is_digit(c: char) -> bool {
    '0' <= c && c <= '9'
}

pub open spec fn is_alnum(c: char) -> bool {
    ('A' <= c && c <= 'Z') || ('a' <= c && c <= 'z') || is_digit(c)
}

pub open spec fn is_lower_letter(c: char) -> bool {
    'a' <= c && c <= 'z'
}

/// The texts [`SIZE_PATTERN`] matches.
pub open spec fn size_lang(s: Seq<char>) -> bool {
    &&& s.len() >= 2
    &&& '1' <= s[0] && s[0] <= '9'
    &&& forall|i: int| 1 <= i < s.len() - 1 ==> is_digit(#[trigger] s[i])
    &&& (s.last() == 'K' || s.last() == 'M' || s.last() == 'G' || s.last() == 'T')
}

/// The texts [`HOSTNAME_PATTERN`] matches.
pub open spec fn hostname_lang(s: Seq<char>) -> bool {
    &&& 1 <= s.len() <= 63
    &&& is_alnum(s[0])
    &&& forall|i: int| 1 <= i < s.len() ==> is_alnum(#[trigger] s[i]) || s[i] == '-'
}

/// The texts [`KEYBOARD_LAYOUT_PATTERN`] matches.
pub open spec fn layout_lang(s: Seq<char>) -> bool {
    &&& s.len() >= 1
    &&& forall|i: int| 0 <= i < s.len() ==> is_alnum(#[trigger] s[i]) || s[i] == '_' || s[i] == '-'
}

/// The texts [`USERNAME_PATTERN`] matches.
pub open spec fn username_lang(s: Seq<char>) -> bool {
    &&& s.len() >= 1
    &&& (is_lower_letter(s[0]) || s[0] == '_')
    &&& forall|i: int|
        1 <= i < s.len() ==> is_lower_letter(#[trigger] s[i]) || is_digit(s[i]) || s[i] == '_'
            || s[i] == '-'
}

/// Compiles `pattern` with `regex::Regex::new` and, when it compiles, tests
/// `text` with `Regex::is_match`. For each of the four patterns of this module
/// the contract states the texts the pattern matches (the patterns are anchored
/// at both ends, so a match covers the whole text); of other patterns it says
/// nothing.
#[verifier::external_body]
fn regex_is_match(pattern: &str, text: &str) -> (r: Option<bool>)
    ensures
        pattern@ == SIZE_PATTERN@ ==> r == Some(size_lang(text@)),
        pattern@ == HOSTNAME_PATTERN@ ==> r == Some(hostname_lang(text@)),
        pattern@ == KEYBOARD_LAYOUT_PATTERN@ ==> r == Some(layout_lang(text@)),
        pattern@ == USERNAME_PATTERN@ ==> r == Some(username_lang(text@)),
{
    match regex::Regex::new(pattern) {
        Ok(re) => Some(re.is_match(text)),
        Err(_) => None,
    }
}

/// The decimal value of a run of ASCII digits.
pub open spec fn decimal(s: Seq<char>) -> int
    decreases s.len(),
{
    if s.len() == 0 {
        0
    } else {
        decimal(s.drop_last()) * 10 + (s.last() as int - '0' as int)
    }
}

/// The text after an optional leading `+`.
pub open spec fn unsigned_part(s: Seq<char>) -> Seq<char> {
    if s.len() > 0 && s[0] == '+' {
        s.drop_first()
    } else {
        s
    }
}

/// Every character is an ASCII digit.
pub open spec fn all_digits(d: Seq<char>) -> bool {
    forall|i: int| 0 <= i < d.len() ==> is_digit(#[trigger] d[i])
}

/// What `u8::from_str` accepts: an optional `+` and then one or more ASCII
/// digits whose value fits in a byte.
pub open spec fn parse_u8_spec(s: Seq<char>) -> Option<u8> {
    if unsigned_part(s).len() > 0 && all_digits(unsigned_part(s)) && decimal(unsigned_part(s))
        <= 255 {
        Some(decimal(unsigned_part(s)) as u8)
    } else {
        None
    }
}

/// A run of digits is worth at least as much as any of its prefixes.
proof fn lemma_decimal_prefix(d: Seq<char>, j: int)
    requires
        all_digits(d),
        0 <= j <= d.len(),
    ensures
        0 <= decimal(d.take(j)) <= decimal(d),
    decreases d.len(),
{
    if d.len() > 0 {
        let e = d.drop_last();
        assert(all_digits(e)) by {
            assert forall|i: int| 0 <= i < e.len() implies is_digit(#[trigger] e[i]) by {
                assert(e[i] == d[i]);
            }
        }
        assert(is_digit(d[d.len() - 1]));
        if j == d.len() {
            assert(d.take(j) =~= d);
            lemma_decimal_prefix(e, e.len() as int);
            assert(e.take(e.len() as int) =~= e);
        } else {
            assert(d.take(j) =~= e.take(j));
            lemma_decimal_prefix(e, j);
            lemma_decimal_prefix(e, e.len() as int);
            assert(e.take(e.len() as int) =~= e);
        }
    } else {
        assert(d.take(j) =~= d);
    }
}

/// Parses a byte as `str::parse::<u8>` does.
fn parse_u8(s: &str) -> (r: Option<u8>)
    ensures
        r == parse_u8_spec(s@),
{
    let n = s.unicode_len();
    let mut start: usize = 0;
    if n > 0 && s.get_char(0) == '+' {
        start = 1;
    }
    let ghost d = unsigned_part(s@);
    assert(d =~= s@.subrange(start as int, n as int));
    if start >= n {
        return None;
    }
    let mut value: u16 = 0;
    let mut big = false;
    let mut i: usize = start;
    while i < n
        invariant
            start <= i <= n,
            n == s@.len(),
            d == s@.subrange(start as int, n as int),
            d == unsigned_part(s@),
            all_digits(d.take(i - start)),
            !big ==> value == decimal(d.take(i - start)) && value <= 255,
            big ==> decimal(d.take(i - start)) > 255,
        decreases n - i,
    {
        let c = s.get_char(i);
        let ghost k = (i - start) as int;
        assert(d[k] == c);
        if c < '0' || c > '9' {
            assert(!all_digits(d));
            return None;
        }
        assert(d.take(k + 1).drop_last() =~= d.take(k));
        assert(all_digits(d.take(k + 1))) by {
            assert forall|j: int| 0 <= j < k + 1 implies is_digit(#[trigger] d.take(k + 1)[j]) by {
                if j < k {
                    assert(d.take(k + 1)[j] == d.take(k)[j]);
                }
            }
        }
        if !big {
            let digit = (c as u8) - 48;
            let next: u16 = value * 10 + digit as u16;
            if next > 255 {
                big = true;
            } else {
                value = next;
            }
        } else {
            assert(decimal(d.take(k + 1)) >= decimal(d.take(k))) by {
                lemma_decimal_prefix(d.take(k + 1), k);
                assert(d.take(k + 1).take(k) =~= d.take(k));
            }
        }
        i = i + 1;
    }
    assert(d.take(n - start) =~= d);
    if big {
        None
    } else {
        Some(value as u8)
    }
}

/// Why a value was refused.
#[derive(Clone, Debug, PartialEq, Eq)]
pub enum ValidationError {
    SizeFormat { label: String },
    HostnameEmpty,
    HostnameInvalid,
    TimezoneEmpty,
    TimezoneSpaces,
    KeyboardLayoutEmpty,
    KeyboardLayoutInvalid,
    UsernameEmpty,
    UsernameInvalid,
    PasswordTooShort { label: String },
    AshiftNotNumber,
    AshiftOutOfRange,
    RedundancyUnknown,
    CompressionUnknown,
    PrimaryCacheUnknown,
    RedundancyUnsupported { value: String },
}

/// A [`ValidationError`] with its texts as character sequences.
pub enum ValidationErrorView {
    SizeFormat { label: Seq<char> },
    HostnameEmpty,
    HostnameInvalid,
    TimezoneEmpty,
    TimezoneSpaces,
    KeyboardLayoutEmpty,
    KeyboardLayoutInvalid,
    UsernameEmpty,
    UsernameInvalid,
    PasswordTooShort { label: Seq<char> },
    AshiftNotNumber,
    AshiftOutOfRange,
    RedundancyUnknown,
    CompressionUnknown,
    PrimaryCacheUnknown,
    RedundancyUnsupported { value: Seq<char> },
}

impl View for ValidationError {
    type V = ValidationErrorView;

    open spec fn view(&self) -> ValidationErrorView {
        match self {
            ValidationError::SizeFormat { label } => ValidationErrorView::SizeFormat {
                label: label@,
            },
            ValidationError::HostnameEmpty => ValidationErrorView::HostnameEmpty,
            ValidationError::HostnameInvalid => ValidationErrorView::HostnameInvalid,
            ValidationError::TimezoneEmpty => ValidationErrorView::TimezoneEmpty,
            ValidationError::TimezoneSpaces => ValidationErrorView::TimezoneSpaces,
            ValidationError::KeyboardLayoutEmpty => ValidationErrorView::KeyboardLayoutEmpty,
            ValidationError::KeyboardLayoutInvalid => ValidationErrorView::KeyboardLayoutInvalid,
            ValidationError::UsernameEmpty => ValidationErrorView::UsernameEmpty,
            ValidationError::UsernameInvalid => ValidationErrorView::UsernameInvalid,
            ValidationError::PasswordTooShort { label } => ValidationErrorView::PasswordTooShort {
                label: label@,
            },
            ValidationError::AshiftNotNumber => ValidationErrorView::AshiftNotNumber,
            ValidationError::AshiftOutOfRange => ValidationErrorView::AshiftOutOfRange,
            ValidationError::RedundancyUnknown => ValidationErrorView::RedundancyUnknown,
            ValidationError::CompressionUnknown => ValidationErrorView::CompressionUnknown,
            ValidationError::PrimaryCacheUnknown => ValidationErrorView::PrimaryCacheUnknown,
            ValidationError::RedundancyUnsupported { value } =>
                ValidationErrorView::RedundancyUnsupported { value: value@ },
        }
    }
}

/// The text shown to the user for a refusal.
pub open spec fn error_message(e: ValidationErrorView) -> Seq<char> {
    match e {
        ValidationErrorView::SizeFormat { label } => label
            + " size must match pattern like 512M, 1G, 16G."@,
        ValidationErrorView::HostnameEmpty => "Hostname cannot be empty."@,
        ValidationErrorView::HostnameInvalid =>
            "Hostname must use letters, digits, or '-', and start with a letter/digit."@,
        ValidationErrorView::TimezoneEmpty => "Timezone cannot be empty."@,
        ValidationErrorView::TimezoneSpaces =>
            "Timezone must not contain spaces (example: Europe/Berlin)."@,
        ValidationErrorView::KeyboardLayoutEmpty => "Keyboard layout cannot be empty."@,
        ValidationErrorView::KeyboardLayoutInvalid =>
            "Keyboard layout must use letters, digits, '_' or '-'."@,
        ValidationErrorView::UsernameEmpty => "Username cannot be empty."@,
        ValidationErrorView::UsernameInvalid =>
            "Username must start with a-z/_ and contain only a-z, 0-9, '_' or '-'."@,
        ValidationErrorView::PasswordTooShort { label } => label
            + " must be at least 8 characters."@,
        ValidationErrorView::AshiftNotNumber => "ashift must be a number between 9 and 16."@,
        ValidationErrorView::AshiftOutOfRange => "ashift must be between 9 and 16."@,
        ValidationErrorView::RedundancyUnknown =>
            "Redundancy must be one of: single, mirror, raidz1, raidz2, raidz3."@,
        ValidationErrorView::CompressionUnknown =>
            "Compression must be one of: lz4, zstd, gzip, zle, on, off."@,
        ValidationErrorView::PrimaryCacheUnknown =>
            "Primary cache must be one of: all, metadata, none."@,
        ValidationErrorView::RedundancyUnsupported { value } => "Selected redundancy '"@ + value
            + "' requires multi-disk pool setup, which is not yet supported in this installer mode. Use 'single'."@,
    }
}

impl ValidationError {
    /// A copy of this refusal.
    pub fn duplicate(&self) -> (r: ValidationError)
        ensures
            r@ == self@,
    {
        match self {
            ValidationError::SizeFormat { label } => ValidationError::SizeFormat { label: label.clone() },
            ValidationError::HostnameEmpty => ValidationError::HostnameEmpty,
            ValidationError::HostnameInvalid => ValidationError::HostnameInvalid,
            ValidationError::TimezoneEmpty => ValidationError::TimezoneEmpty,
            ValidationError::TimezoneSpaces => ValidationError::TimezoneSpaces,
            ValidationError::KeyboardLayoutEmpty => ValidationError::KeyboardLayoutEmpty,
            ValidationError::KeyboardLayoutInvalid => ValidationError::KeyboardLayoutInvalid,
            ValidationError::UsernameEmpty => ValidationError::UsernameEmpty,
            ValidationError::UsernameInvalid => ValidationError::UsernameInvalid,
            ValidationError::PasswordTooShort { label } => ValidationError::PasswordTooShort {
                label: label.clone(),
            },
            ValidationError::AshiftNotNumber => ValidationError::AshiftNotNumber,
            ValidationError::AshiftOutOfRange => ValidationError::AshiftOutOfRange,
            ValidationError::RedundancyUnknown => ValidationError::RedundancyUnknown,
            ValidationError::CompressionUnknown => ValidationError::CompressionUnknown,
            ValidationError::PrimaryCacheUnknown => ValidationError::PrimaryCacheUnknown,
            ValidationError::RedundancyUnsupported { value } => ValidationError::RedundancyUnsupported {
                value: value.clone(),
            },
        }
    }

    /// The text shown to the user for this refusal.
    pub fn message(&self) -> (r: String)
        ensures
            r@ == error_message(self@),
    {
        match self {
            ValidationError::SizeFormat { label } => {
                let mut s = label.clone();
                s.append(" size must match pattern like 512M, 1G, 16G.");
                s
            },
            ValidationError::HostnameEmpty => owned("Hostname cannot be empty."),
            ValidationError::HostnameInvalid => owned(
                "Hostname must use letters, digits, or '-', and start with a letter/digit.",
            ),
            ValidationError::TimezoneEmpty => owned("Timezone cannot be empty."),
            ValidationError::TimezoneSpaces => owned(
                "Timezone must not contain spaces (example: Europe/Berlin).",
            ),
            ValidationError::KeyboardLayoutEmpty => owned("Keyboard layout cannot be empty."),
            ValidationError::KeyboardLayoutInvalid => owned(
                "Keyboard layout must use letters, digits, '_' or '-'.",
            ),
            ValidationError::UsernameEmpty => owned("Username cannot be empty."),
            ValidationError::UsernameInvalid => owned(
                "Username must start with a-z/_ and contain only a-z, 0-9, '_' or '-'.",
            ),
            ValidationError::PasswordTooShort { label } => {
                let mut s = label.clone();
                s.append(" must be at least 8 characters.");
                s
            },
            ValidationError::AshiftNotNumber => owned("ashift must be a number between 9 and 16."),
            ValidationError::AshiftOutOfRange => owned("ashift must be between 9 and 16."),
            ValidationError::RedundancyUnknown => owned(
                "Redundancy must be one of: single, mirror, raidz1, raidz2, raidz3.",
            ),
            ValidationError::CompressionUnknown => owned(
                "Compression must be one of: lz4, zstd, gzip, zle, on, off.",
            ),
            ValidationError::PrimaryCacheUnknown => owned(
                "Primary cache must be one of: all, metadata, none.",
            ),
            ValidationError::RedundancyUnsupported { value } => {
                let mut s = owned("Selected redundancy '");
                s.append(value.as_str());
                s.append(
                    "' requires multi-disk pool setup, which is not yet supported in this installer mode. Use 'single'.",
                );
                s
            },
        }
    }
}

/// A validation outcome by its view.
pub open spec fn outcome(r: Result<(), ValidationError>) -> Result<(), ValidationErrorView> {
    match r {
        Ok(()) => Ok(()),
        Err(e) => Err(e@),
    }
}

pub open spec fn size_check(value: Seq<char>, label: Seq<char>) -> Result<(), ValidationErrorView> {
    if size_lang(value) {
        Ok(())
    } else {
        Err(ValidationErrorView::SizeFormat { label })
    }
}

pub open spec fn hostname_check(value: Seq<char>) -> Result<(), ValidationErrorView> {
    let v = trimmed(value);
    if v.len() == 0 {
        Err(ValidationErrorView::HostnameEmpty)
    } else if !hostname_lang(v) {
        Err(ValidationErrorView::HostnameInvalid)
    } else {
        Ok(())
    }
}

pub open spec fn timezone_check(value: Seq<char>) -> Result<(), ValidationErrorView> {
    let v = trimmed(value);
    if v.len() == 0 {
        Err(ValidationErrorView::TimezoneEmpty)
    } else if v.contains(' ') {
        Err(ValidationErrorView::TimezoneSpaces)
    } else {
        Ok(())
    }
}

pub open spec fn keyboard_layout_check(value: Seq<char>) -> Result<(), ValidationErrorView> {
    let v = trimmed(value);
    if v.len() == 0 {
        Err(ValidationErrorView::KeyboardLayoutEmpty)
    } else if !layout_lang(v) {
        Err(ValidationErrorView::KeyboardLayoutInvalid)
    } else {
        Ok(())
    }
}

pub open spec fn username_check(value: Seq<char>) -> Result<(), ValidationErrorView> {
    let v = trimmed(value);
    if v.len() == 0 {
        Err(ValidationErrorView::UsernameEmpty)
    } else if !username_lang(v) {
        Err(ValidationErrorView::UsernameInvalid)
    } else {
        Ok(())
    }
}

/// The UTF-8 length of a text in bytes, which `str::len` gives.
pub open spec fn byte_len(s: Seq<char>) -> nat {
    vstd::utf8::encode_utf8(s).len()
}

pub open spec fn password_check(value: Seq<char>, label: Seq<char>) -> Result<(), ValidationErrorView> {
    if byte_len(value) < 8 {
        Err(ValidationErrorView::PasswordTooShort { label })
    } else {
        Ok(())
    }
}

pub open spec fn ashift_check(value: Seq<char>) -> Result<(), ValidationErrorView> {
    match parse_u8_spec(trimmed(value)) {
        None => Err(ValidationErrorView::AshiftNotNumber),
        Some(n) => if 9 <= n <= 16 {
            Ok(())
        } else {
            Err(ValidationErrorView::AshiftOutOfRange)
        },
    }
}

/// The normalized form compared against the allowed words: trimmed, lower-case.
pub open spec fn normalized(value: Seq<char>) -> Seq<char> {
    lowercase(trimmed(value))
}

pub open spec fn redundancy_word(v: Seq<char>) -> bool {
    v == "single"@ || v == "mirror"@ || v == "raidz1"@ || v == "raidz2"@ || v == "raidz3"@
}

pub open spec fn compression_word(v: Seq<char>) -> bool {
    v == "lz4"@ || v == "zstd"@ || v == "gzip"@ || v == "zle"@ || v == "on"@ || v == "off"@
}

pub open spec fn primarycache_word(v: Seq<char>) -> bool {
    v == "all"@ || v == "metadata"@ || v == "none"@
}

pub open spec fn redundancy_check(value: Seq<char>) -> Result<(), ValidationErrorView> {
    if redundancy_word(normalized(value)) {
        Ok(())
    } else {
        Err(ValidationErrorView::RedundancyUnknown)
    }
}

pub open spec fn compression_check(value: Seq<char>) -> Result<(), ValidationErrorView> {
    if compression_word(normalized(value)) {
        Ok(())
    } else {
        Err(ValidationErrorView::CompressionUnknown)
    }
}

pub open spec fn primarycache_check(value: Seq<char>) -> Result<(), ValidationErrorView> {
    if primarycache_word(normalized(value)) {
        Ok(())
    } else {
        Err(ValidationErrorView::PrimaryCacheUnknown)
    }
}

/// The checks on a configuration's ZFS options, in order: each option on its
/// own, then that the redundancy is the single-disk layout.
pub open spec fn zfs_options_check(
    ashift: Seq<char>,
    redundancy: Seq<char>,
    compression: Seq<char>,
    primarycache: Seq<char>,
) -> Result<(), ValidationErrorView> {
    if ashift_check(ashift) is Err {
        ashift_check(ashift)
    } else if redundancy_check(redundancy) is Err {
        redundancy_check(redundancy)
    } else if compression_check(compression) is Err {
        compression_check(compression)
    } else if primarycache_check(primarycache) is Err {
        primarycache_check(primarycache)
    } else if normalized(redundancy) != "single"@ {
        Err(ValidationErrorView::RedundancyUnsupported { value: redundancy })
    } else {
        Ok(())
    }
}

/// Checks a partition size such as `512M` or `16G`; `label` names the
/// partition in the message.
pub fn validate_size_input(value: &str, label: &str) -> (r: Result<(), ValidationError>)
    ensures
        outcome(r) == size_check(value@, label@),
{
    let matched = regex_is_match(SIZE_PATTERN, value);
    match matched {
        Some(true) => Ok(()),
        _ => Err(ValidationError::SizeFormat { label: owned(label) }),
    }
}

/// Checks a host name (surrounding whitespace ignored).
pub fn validate_hostname(value: &str) -> (r: Result<(), ValidationError>)
    ensures
        outcome(r) == hostname_check(value@),
{
    let v = trim_str(value);
    if v.unicode_len() == 0 {
        return Err(ValidationError::HostnameEmpty);
    }
    match regex_is_match(HOSTNAME_PATTERN, v) {
        Some(true) => Ok(()),
        _ => Err(ValidationError::HostnameInvalid),
    }
}

/// Checks a time zone name such as `Europe/Berlin` (surrounding whitespace ignored).
pub fn validate_timezone(value: &str) -> (r: Result<(), ValidationError>)
    ensures
        outcome(r) == timezone_check(value@),
{
    let v = trim_str(value);
    if v.unicode_len() == 0 {
        return Err(ValidationError::TimezoneEmpty);
    }
    if contains_char(v, ' ') {
        return Err(ValidationError::TimezoneSpaces);
    }
    Ok(())
}

/// Checks a keyboard layout name such as `us` (surrounding whitespace ignored).
pub fn validate_keyboard_layout(value: &str) -> (r: Result<(), ValidationError>)
    ensures
        outcome(r) == keyboard_layout_check(value@),
{
    let v = trim_str(value);
    if v.unicode_len() == 0 {
        return Err(ValidationError::KeyboardLayoutEmpty);
    }
    match regex_is_match(KEYBOARD_LAYOUT_PATTERN, v) {
        Some(true) => Ok(()),
        _ => Err(ValidationError::KeyboardLayoutInvalid),
    }
}

/// Checks a user name (surrounding whitespace ignored).
pub fn validate_username(value: &str) -> (r: Result<(), ValidationError>)
    ensures
        outcome(r) == username_check(value@),
{
    let v = trim_str(value);
    if v.unicode_len() == 0 {
        return Err(ValidationError::UsernameEmpty);
    }
    match regex_is_match(USERNAME_PATTERN, v) {
        Some(true) => Ok(()),
        _ => Err(ValidationError::UsernameInvalid),
    }
}

/// Checks that a password is at least 8 bytes long; `label` names it in the message.
pub fn validate_password(value: &str, label: &str) -> (r: Result<(), ValidationError>)
    ensures
        outcome(r) == password_check(value@, label@),
{
    if value.as_bytes().len() < 8 {
        return Err(ValidationError::PasswordTooShort { label: owned(label) });
    }
    Ok(())
}

/// Checks the ZFS `ashift`: a number from 9 to 16.
pub fn validate_zfs_ashift(value: &str) -> (r: Result<(), ValidationError>)
    ensures
        outcome(r) == ashift_check(value@),
{
    match parse_u8(trim_str(value)) {
        None => Err(ValidationError::AshiftNotNumber),
        Some(n) => if 9 <= n && n <= 16 {
            Ok(())
        } else {
            Err(ValidationError::AshiftOutOfRange)
        },
    }
}

/// Checks the ZFS redundancy level, case-insensitively.
pub fn validate_zfs_redundancy(value: &str) -> (r: Result<(), ValidationError>)
    ensures
        outcome(r) == redundancy_check(value@),
{
    let v = ascii_lowercase(trim_str(value));
    let s = v.as_str();
    if str_eq(s, "single") || str_eq(s, "mirror") || str_eq(s, "raidz1") || str_eq(s, "raidz2")
        || str_eq(s, "raidz3") {
        Ok(())
    } else {
        Err(ValidationError::RedundancyUnknown)
    }
}

/// Checks the ZFS compression setting, case-insensitively.
pub fn validate_zfs_compression(value: &str) -> (r: Result<(), ValidationError>)
    ensures
        outcome(r) == compression_check(value@),
{
    let v = ascii_lowercase(trim_str(value));
    let s = v.as_str();
    if str_eq(s, "lz4") || str_eq(s, "zstd") || str_eq(s, "gzip") || str_eq(s, "zle") || str_eq(
        s,
        "on",
    ) || str_eq(s, "off") {
        Ok(())
    } else {
        Err(ValidationError::CompressionUnknown)
    }
}

/// Checks the ZFS `primarycache` setting, case-insensitively.
pub fn validate_zfs_primarycache(value: &str) -> (r: Result<(), ValidationError>)
    ensures
        outcome(r) == primarycache_check(value@),
{
    let v = ascii_lowercase(trim_str(value));
    let s = v.as_str();
    if str_eq(s, "all") || str_eq(s, "metadata") || str_eq(s, "none") {
        Ok(())
    } else {
        Err(ValidationError::PrimaryCacheUnknown)
    }
}

/// Checks all ZFS options of a configuration, and that the pool layout is the
/// single-disk one this installer can build.
pub fn validate_zfs_options(cfg: &InstallConfig) -> (r: Result<(), ValidationError>)
    ensures
        outcome(r) == zfs_options_check(
            cfg.zfs_ashift@,
            cfg.zfs_redundancy@,
            cfg.zfs_compression@,
            cfg.zfs_primarycache@,
        ),
{
    validate_zfs_ashift(cfg.zfs_ashift.as_str())?;
    validate_zfs_redundancy(cfg.zfs_redundancy.as_str())?;
    validate_zfs_compression(cfg.zfs_compression.as_str())?;
    validate_zfs_primarycache(cfg.zfs_primarycache.as_str())?;
    let v = ascii_lowercase(trim_str(cfg.zfs_redundancy.as_str()));
    if !str_eq(v.as_str(), "single") {
        return Err(ValidationError::RedundancyUnsupported { value: cfg.zfs_redundancy.clone() });
    }
    Ok(())
}

/// The compression setting accepts exactly the words `lz4`, `zstd`, `gzip`,
/// `zle`, `on` and `off`, in any letter case and with surrounding whitespace
/// ignored; any other value is refused as an unknown compression.
pub proof fn lemma_compression_words(value: Seq<char>)
    ensures
        compression_check(value) is Ok <==> ({
            let w = lowercase(trimmed(value));
            w == "lz4"@ || w == "zstd"@ || w == "gzip"@ || w == "zle"@ || w == "on"@ || w == "off"@
        }),
        compression_check(value) is Err ==> compression_check(value) == Err::<(), ValidationErrorView>(
            ValidationErrorView::CompressionUnknown,
        ),
{
}

/// The redundancy setting accepts exactly the words `single`, `mirror`,
/// `raidz1`, `raidz2` and `raidz3`, in any letter case and with surrounding
/// whitespace ignored.
pub proof fn lemma_redundancy_words(value: Seq<char>)
    ensures
        redundancy_check(value) is Ok <==> ({
            let w = lowercase(trimmed(value));
            w == "single"@ || w == "mirror"@ || w == "raidz1"@ || w == "raidz2"@ || w == "raidz3"@
        }),
        redundancy_check(value) is Err ==> redundancy_check(value) == Err::<(), ValidationErrorView>(
            ValidationErrorView::RedundancyUnknown,
        ),
{
}

/// The primary cache setting accepts exactly the words `all`, `metadata` and
/// `none`, in any letter case and with surrounding whitespace ignored.
pub proof fn lemma_primarycache_words(value: Seq<char>)
    ensures
        primarycache_check(value) is Ok <==> ({
            let w = lowercase(trimmed(value));
            w == "all"@ || w == "metadata"@ || w == "none"@
        }),
        primarycache_check(value) is Err ==> primarycache_check(value)
            == Err::<(), ValidationErrorView>(ValidationErrorView::PrimaryCacheUnknown),
{
}

/// The ashift setting accepts exactly the numbers 9 to 16 (written as
/// `u8::from_str` reads them, surrounding whitespace ignored); a number out
/// of that range and a text that is no number are refused differently.
pub proof fn lemma_ashift_range(value: Seq<char>)
    ensures
        ashift_check(value) is Ok <==> (exists|n: u8|
            9 <= n <= 16 && #[trigger] parse_u8_spec(trimmed(value)) == Some(n)),
        parse_u8_spec(trimmed(value)) is None ==> ashift_check(value) == Err::<
            (),
            ValidationErrorView,
        >(ValidationErrorView::AshiftNotNumber),
{
    if let Some(n) = parse_u8_spec(trimmed(value)) {
        if 9 <= n <= 16 {
            assert(parse_u8_spec(trimmed(value)) == Some(n));
        }
    }
}

} // verus!
