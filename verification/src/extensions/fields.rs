//! Checks of single fields of a manifest. A check names its first objection, and checks
//! that are made one after the other report the first objection among them.
use vstd::prelude::*;

use crate::checks;
use crate::checks::Objection;
use crate::extensions::endpoint::check_endpoint;
use crate::extensions::manifest::{
    ExtensionKind, ExtensionValidationError, ExtensionValidationErrorModel,
    ExtensionValidationResult,
};
use crate::text::{
    blank, chars_of, contains_char, contains_white_space, holds_text, join_texts, only_digits,
    only_hex, same_text, split_text, strip_prefix, trim,
};

verus! {

/// What a check objects to, if it objects.
pub type Problem = Option<ExtensionValidationErrorModel>;

pub open spec fn missing(field: Seq<char>) -> ExtensionValidationErrorModel {
    ExtensionValidationErrorModel::MissingField { field }
}

pub open spec fn invalid(field: Seq<char>, reason: Seq<char>) -> ExtensionValidationErrorModel {
    ExtensionValidationErrorModel::InvalidField { field, reason }
}

pub open spec fn unproven(field: Seq<char>, reason: Seq<char>) -> ExtensionValidationErrorModel {
    ExtensionValidationErrorModel::ProvenanceRequired { field, reason }
}

pub fn invalid_field(field: &'static str, reason: &str) -> (r: ExtensionValidationError)
    ensures
        r@ == invalid(field@, reason@),
{
    ExtensionValidationError::InvalidField { field, reason: reason.to_owned() }
}

pub fn unproven_field(field: &'static str, reason: &str) -> (r: ExtensionValidationError)
    ensures
        r@ == unproven(field@, reason@),
{
    ExtensionValidationError::ProvenanceRequired { field, reason: reason.to_owned() }
}

/// Something stands there, and it is not only white space.
pub open spec fn has_content(value: Option<Seq<char>>) -> bool {
    value is Some && !crate::text::is_blank(value->0)
}

pub fn has_non_empty_trimmed(value: &Option<String>) -> (r: bool)
    ensures
        r == has_content(value.deep_view()),
{
    match value {
        Some(text) => !blank(text.as_str()),
        None => false,
    }
}

pub open spec fn empty_problem(field: Seq<char>, value: Seq<char>) -> Problem {
    if crate::text::is_blank(value) {
        Some(missing(field))
    } else {
        None
    }
}

pub fn require_non_empty(field: &'static str, value: &str) -> (r: ExtensionValidationResult<()>)
    ensures
        checks::reports(r, empty_problem(field@, value@)),
{
    if blank(value) {
        Err(ExtensionValidationError::MissingField { field })
    } else {
        Ok(())
    }
}

pub open spec fn white_problem(field: Seq<char>, value: Seq<char>) -> Problem {
    if crate::text::has_white(value) {
        Some(invalid(field, "must not contain whitespace"@))
    } else {
        None
    }
}

pub fn require_no_white_space(field: &'static str, value: &str) -> (r: ExtensionValidationResult<()>)
    ensures
        checks::reports(r, white_problem(field@, value@)),
{
    if contains_white_space(value) {
        Err(invalid_field(field, "must not contain whitespace"))
    } else {
        Ok(())
    }
}

/// A word: something, and no white space in it.
pub open spec fn word_problem(field: Seq<char>, value: Seq<char>) -> Problem {
    empty_problem(field, value).otherwise(white_problem(field, value))
}

pub fn require_word(field: &'static str, value: &str) -> (r: ExtensionValidationResult<()>)
    ensures
        checks::reports(r, word_problem(field@, value@)),
{
    require_non_empty(field, value)?;
    require_no_white_space(field, value)
}

pub open spec fn trimmed_problem(field: Seq<char>, value: Seq<char>) -> Problem {
    empty_problem(field, value).otherwise(
        if crate::text::trimmed(value) != value {
            Some(invalid(field, "must not contain surrounding whitespace"@))
        } else {
            None
        },
    )
}

pub fn require_trimmed_non_empty(field: &'static str, value: &str) -> (r: ExtensionValidationResult<
    (),
>)
    ensures
        checks::reports(r, trimmed_problem(field@, value@)),
{
    require_non_empty(field, value)?;
    if !same_text(trim(value), value) {
        return Err(invalid_field(field, "must not contain surrounding whitespace"));
    }
    Ok(())
}

/// A segment of a namespace: lower-case letters, digits and hyphens, a letter first.
pub open spec fn is_segment(text: Seq<char>) -> bool {
    &&& text.len() > 0
    &&& crate::text::is_lower_alpha(text[0])
    &&& forall|i: int| 0 <= i < text.len() ==> is_segment_char(#[trigger] text[i])
}

pub open spec fn is_segment_char(c: char) -> bool {
    crate::text::is_lower_alpha(c) || crate::text::is_digit(c) || c == '-'
}

pub open spec fn namespace_problem(field: Seq<char>, value: Seq<char>) -> Problem {
    let segments = crate::text::split(value, '.');
    if value.len() == 0 || value[0] == '.' || value.last() == '.' || !value.contains('.') {
        Some(invalid(field, "must use a reverse-DNS-like dotted namespace"@))
    } else if exists|i: int| 0 <= i < segments.len() && !is_segment(#[trigger] segments[i]) {
        Some(
            invalid(
                field,
                "segments must start with a lowercase ascii letter and contain lowercase ascii, digits, or hyphen"@,
            ),
        )
    } else {
        None
    }
}

pub fn checks_as_segment(text: &str) -> (r: bool)
    ensures
        r == is_segment(text@),
{
    let chars = chars_of(text);
    let n: usize = chars.len();
    if n == 0 || !('a' <= chars[0] && chars[0] <= 'z') {
        return false;
    }
    let mut i: usize = 0;
    while i < n
        invariant
            i <= n == chars.len(),
            chars@ == text@,
            forall|j: int| 0 <= j < i ==> is_segment_char(#[trigger] text@[j]),
        decreases n - i,
    {
        let c = chars[i];
        if !(('a' <= c && c <= 'z') || ('0' <= c && c <= '9') || c == '-') {
            assert(!is_segment_char(text@[i as int]));
            return false;
        }
        i += 1;
    }
    true
}

pub fn require_reverse_dns_id(field: &'static str, value: &str) -> (r: ExtensionValidationResult<()>)
    ensures
        checks::reports(r, namespace_problem(field@, value@)),
{
    let n: usize = value.unicode_len();
    if n == 0 || value.get_char(0) == '.' || value.get_char(n - 1) == '.' || !contains_char(
        value,
        '.',
    ) {
        return Err(invalid_field(field, "must use a reverse-DNS-like dotted namespace"));
    }
    let segments = split_text(value, '.');
    let ghost all = segments.deep_view();
    let mut i: usize = 0;
    while i < segments.len()
        invariant
            i <= segments.len(),
            all == segments.deep_view(),
            all == crate::text::split(value@, '.'),
            n == value@.len() > 0,
            value@[0] != '.',
            value@.last() != '.',
            value@.contains('.'),
            forall|j: int| 0 <= j < i ==> is_segment(#[trigger] all[j]),
        decreases segments.len() - i,
    {
        assert(all[i as int] == segments[i as int]@);
        if !checks_as_segment(segments[i].as_str()) {
            assert(!is_segment(all[i as int]));
            return Err(
                invalid_field(
                    field,
                    "segments must start with a lowercase ascii letter and contain lowercase ascii, digits, or hyphen",
                ),
            );
        }
        i += 1;
    }
    Ok(())
}

/// A version: three numbers with points between them.
pub open spec fn is_version(value: Seq<char>) -> bool {
    let parts = crate::text::split(value, '.');
    parts.len() == 3 && forall|i: int| 0 <= i < 3 ==> is_version_part(#[trigger] parts[i])
}

pub open spec fn is_version_part(text: Seq<char>) -> bool {
    text.len() > 0 && crate::text::all_digits(text)
}

pub open spec fn version_problem(field: Seq<char>, value: Seq<char>) -> Problem {
    if is_version(value) {
        None
    } else {
        Some(invalid(field, "must be major.minor.patch numeric semver"@))
    }
}

pub fn checks_as_version(value: &str) -> (r: bool)
    ensures
        r == is_version(value@),
{
    let parts = split_text(value, '.');
    let ghost all = parts.deep_view();
    if parts.len() != 3 {
        return false;
    }
    let mut i: usize = 0;
    while i < 3
        invariant
            i <= 3,
            parts.len() == 3,
            all == parts.deep_view(),
            all == crate::text::split(value@, '.'),
            forall|j: int| 0 <= j < i ==> is_version_part(#[trigger] all[j]),
        decreases 3 - i,
    {
        assert(all[i as int] == parts[i as int]@);
        if parts[i].as_str().is_empty() || !only_digits(parts[i].as_str()) {
            assert(!is_version_part(all[i as int]));
            return false;
        }
        i += 1;
    }
    true
}

pub fn require_semver(field: &'static str, value: &str) -> (r: ExtensionValidationResult<()>)
    ensures
        checks::reports(r, version_problem(field@, value@)),
{
    if checks_as_version(value) {
        Ok(())
    } else {
        Err(invalid_field(field, "must be major.minor.patch numeric semver"))
    }
}

pub open spec fn digest_problem(field: Seq<char>, value: Seq<char>) -> Problem {
    if !crate::text::has_prefix(value, "sha256:"@) {
        Some(invalid(field, "must start with sha256:"@))
    } else {
        let hex = value.skip("sha256:"@.len() as int);
        if hex.len() != 64 || !crate::text::all_hex(hex) {
            Some(invalid(field, "must contain 64 hex characters after sha256:"@))
        } else {
            None
        }
    }
}

pub fn require_digest(field: &'static str, value: &str) -> (r: ExtensionValidationResult<()>)
    ensures
        checks::reports(r, digest_problem(field@, value@)),
{
    match strip_prefix(value, "sha256:") {
        None => Err(invalid_field(field, "must start with sha256:")),
        Some(hex) => {
            if hex.unicode_len() != 64 || !only_hex(hex) {
                Err(invalid_field(field, "must contain 64 hex characters after sha256:"))
            } else {
                Ok(())
            }
        },
    }
}

/// A permission's name: a word with a namespace separator in it.
pub open spec fn permission_name_problem(value: Seq<char>) -> Problem {
    word_problem("permission"@, value).otherwise(
        if !value.contains('.') && !value.contains(':') {
            Some(invalid("permission"@, "must include a namespace separator"@))
        } else {
            None
        },
    )
}

pub fn require_permission_name(value: &str) -> (r: ExtensionValidationResult<()>)
    ensures
        checks::reports(r, permission_name_problem(value@)),
{
    require_word("permission", value)?;
    if !contains_char(value, '.') && !contains_char(value, ':') {
        return Err(invalid_field("permission", "must include a namespace separator"));
    }
    Ok(())
}

pub open spec fn required_word_problem(field: Seq<char>, value: Option<Seq<char>>) -> Problem {
    match value {
        None => Some(missing(field)),
        Some(text) => word_problem(field, text),
    }
}

pub fn validate_required_string(field: &'static str, value: &Option<String>) -> (r:
    ExtensionValidationResult<()>)
    ensures
        checks::reports(r, required_word_problem(field@, value.deep_view())),
{
    match value {
        None => Err(ExtensionValidationError::MissingField { field }),
        Some(text) => require_word(field, text.as_str()),
    }
}

/// A choice may be left open; one that is made is among the allowed ones.
pub open spec fn choice_problem(
    field: Seq<char>,
    value: Option<Seq<char>>,
    allowed: Seq<Seq<char>>,
) -> Problem {
    match value {
        None => None,
        Some(text) => word_problem(field, text).otherwise(
            if !allowed.contains(text) {
                Some(
                    invalid(field, "must be one of: "@ + crate::text::joined_by(allowed, ", "@)),
                )
            } else {
                None
            },
        ),
    }
}

pub fn validate_optional_choice(
    field: &'static str,
    value: &Option<String>,
    allowed: &Vec<String>,
) -> (r: ExtensionValidationResult<()>)
    ensures
        checks::reports(r, choice_problem(field@, value.deep_view(), allowed.deep_view())),
{
    match value {
        None => Ok(()),
        Some(text) => {
            require_word(field, text.as_str())?;
            if !holds_text(allowed, text.as_str()) {
                let reason = "must be one of: ".to_owned().concat(
                    join_texts(allowed, ", ").as_str(),
                );
                return Err(ExtensionValidationError::InvalidField { field, reason });
            }
            Ok(())
        },
    }
}

pub fn owned_texts(texts: &Vec<&'static str>) -> (r: Vec<String>)
    ensures
        r.deep_view() == texts.deep_view(),
{
    let mut owned: Vec<String> = Vec::new();
    let mut i: usize = 0;
    while i < texts.len()
        invariant
            i <= texts.len(),
            owned.len() == i,
            forall|j: int| 0 <= j < i ==> (#[trigger] owned[j])@ == texts[j]@,
        decreases texts.len() - i,
    {
        owned.push(texts[i].to_owned());
        i += 1;
    }
    assert(owned.deep_view() =~= texts.deep_view());
    owned
}

pub open spec fn formats() -> Seq<Seq<char>> {
    seq!["toon"@, "json"@]
}

pub open spec fn verbosities() -> Seq<Seq<char>> {
    seq!["minimal"@, "normal"@, "expanded"@, "debug"@]
}

pub open spec fn language_modes() -> Seq<Seq<char>> {
    seq!["user"@, "english_agent"@, "mixed"@]
}

pub open spec fn verifications() -> Seq<Seq<char>> {
    seq!["hmac"@, "github_signature"@, "oidc"@, "none_for_local_only"@]
}

pub open spec fn hook_actions() -> Seq<Seq<char>> {
    seq!["workflow"@, "tool"@, "notification"@, "memory_update"@, "extension_action"@]
}

pub open spec fn trigger_statuses() -> Seq<Seq<char>> {
    seq!["enabled"@, "disabled"@, "blocked"@, "needs_approval"@]
}

pub open spec fn webhook_sources() -> Seq<Seq<char>> {
    seq!["atelia"@, "github"@, "external"@]
}

pub fn format_choices() -> (r: Vec<String>)
    ensures
        r.deep_view() == formats(),
{
    let names: Vec<&'static str> = vec!["toon", "json"];
    assert(names.deep_view() =~= formats());
    owned_texts(&names)
}

pub fn verbosity_choices() -> (r: Vec<String>)
    ensures
        r.deep_view() == verbosities(),
{
    let names: Vec<&'static str> = vec!["minimal", "normal", "expanded", "debug"];
    assert(names.deep_view() =~= verbosities());
    owned_texts(&names)
}

pub fn language_mode_choices() -> (r: Vec<String>)
    ensures
        r.deep_view() == language_modes(),
{
    let names: Vec<&'static str> = vec!["user", "english_agent", "mixed"];
    assert(names.deep_view() =~= language_modes());
    owned_texts(&names)
}

pub fn verification_choices() -> (r: Vec<String>)
    ensures
        r.deep_view() == verifications(),
{
    let names: Vec<&'static str> = vec!["hmac", "github_signature", "oidc", "none_for_local_only"];
    assert(names.deep_view() =~= verifications());
    owned_texts(&names)
}

pub fn hook_action_choices() -> (r: Vec<String>)
    ensures
        r.deep_view() == hook_actions(),
{
    let names: Vec<&'static str> = vec![
        "workflow",
        "tool",
        "notification",
        "memory_update",
        "extension_action",
    ];
    assert(names.deep_view() =~= hook_actions());
    owned_texts(&names)
}

pub fn trigger_status_choices() -> (r: Vec<String>)
    ensures
        r.deep_view() == trigger_statuses(),
{
    let names: Vec<&'static str> = vec!["enabled", "disabled", "blocked", "needs_approval"];
    assert(names.deep_view() =~= trigger_statuses());
    owned_texts(&names)
}

pub fn webhook_source_choices() -> (r: Vec<String>)
    ensures
        r.deep_view() == webhook_sources(),
{
    let names: Vec<&'static str> = vec!["atelia", "github", "external"];
    assert(names.deep_view() =~= webhook_sources());
    owned_texts(&names)
}

/// A webhook's endpoint: an `https` address.
pub open spec fn endpoint_problem(field: Seq<char>, value: Option<Seq<char>>) -> Problem {
    match value {
        None => Some(missing(field)),
        Some(text) => word_problem(field, text).otherwise(address_problem(field, text)),
    }
}

pub open spec fn address_problem(field: Seq<char>, text: Seq<char>) -> Problem {
    if !crate::text::has_prefix(text, "https://"@) {
        Some(invalid(field, "must start with https://"@))
    } else {
        match crate::extensions::endpoint::endpoint_fault(
            text.skip("https://"@.len() as int),
        ) {
            Some(reason) => Some(invalid(field, reason)),
            None => None,
        }
    }
}

pub fn validate_http_endpoint(field: &'static str, value: &Option<String>) -> (r:
    ExtensionValidationResult<()>)
    ensures
        checks::reports(r, endpoint_problem(field@, value.deep_view())),
{
    match value {
        None => Err(ExtensionValidationError::MissingField { field }),
        Some(text) => {
            require_word(field, text.as_str())?;
            match strip_prefix(text.as_str(), "https://") {
                None => Err(invalid_field(field, "must start with https://")),
                Some(rest) => validate_https_endpoint_authority(field, rest),
            }
        },
    }
}

pub fn validate_https_endpoint_authority(field: &'static str, value: &str) -> (r:
    ExtensionValidationResult<()>)
    ensures
        match crate::extensions::endpoint::endpoint_fault(value@) {
            Some(reason) => checks::reports(r, Some(invalid(field@, reason))),
            None => checks::reports(r, None),
        },
{
    match check_endpoint(value) {
        Some(reason) => Err(invalid_field(field, reason)),
        None => Ok(()),
    }
}

/// The checks of a list of words.
pub open spec fn word_checks(field: Seq<char>, values: Seq<Seq<char>>) -> spec_fn(int) -> Problem {
    |i: int| word_problem(field, values[i])
}

pub fn validate_string_list(field: &'static str, values: &Vec<String>) -> (r:
    ExtensionValidationResult<()>)
    ensures
        checks::reports(
            r,
            checks::first_problem(
                word_checks(field@, values.deep_view()),
                values.deep_view().len() as int,
            ),
        ),
{
    let ghost checks = word_checks(field@, values.deep_view());
    let mut i: usize = 0;
    while i < values.len()
        invariant
            i <= values.len(),
            checks == word_checks(field@, values.deep_view()),
            checks::first_problem(checks, i as int) is None,
        decreases values.len() - i,
    {
        assert(values.deep_view()[i as int] == values[i as int]@);
        match require_word(field, values[i].as_str()) {
            Err(error) => {
                proof {
                    checks::lemma_first_problem(checks, i as int, values.deep_view().len() as int);
                }
                return Err(error);
            },
            Ok(_) => {},
        }
        i += 1;
    }
    Ok(())
}

/// The checks of a list of permission names.
pub open spec fn name_checks(values: Seq<Seq<char>>) -> spec_fn(int) -> Problem {
    |i: int| permission_name_problem(values[i])
}

pub fn require_permission_names(values: &Vec<String>) -> (r: ExtensionValidationResult<()>)
    ensures
        checks::reports(
            r,
            checks::first_problem(name_checks(values.deep_view()), values.deep_view().len() as int),
        ),
{
    let ghost checks = name_checks(values.deep_view());
    let mut i: usize = 0;
    while i < values.len()
        invariant
            i <= values.len(),
            checks == name_checks(values.deep_view()),
            checks::first_problem(checks, i as int) is None,
        decreases values.len() - i,
    {
        assert(values.deep_view()[i as int] == values[i as int]@);
        match require_permission_name(values[i].as_str()) {
            Err(error) => {
                proof {
                    checks::lemma_first_problem(checks, i as int, values.deep_view().len() as int);
                }
                return Err(error);
            },
            Ok(_) => {},
        }
        i += 1;
    }
    Ok(())
}

pub fn holds_kind(kinds: &Vec<ExtensionKind>, kind: ExtensionKind) -> (r: bool)
    ensures
        r == kinds.deep_view().contains(kind),
{
    let ghost all = kinds.deep_view();
    let mut i: usize = 0;
    while i < kinds.len()
        invariant
            i <= kinds.len(),
            all == kinds.deep_view(),
            forall|j: int| 0 <= j < i ==> #[trigger] all[j] != kind,
        decreases kinds.len() - i,
    {
        assert(all[i as int] == kinds[i as int]);
        if kinds[i] == kind {
            return true;
        }
        i += 1;
    }
    false
}

} // verus!
