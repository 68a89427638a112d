//! Opaque identifiers: a prefix that names the kind of record, then a UUID.
use vstd::prelude::*;

use crate::record::Record;
use crate::text::{chars_of, starts_with, strip_prefix};

verus! {

pub open spec fn is_hyphen_place(i: int) -> bool {
    i == 8 || i == 13 || i == 18 || i == 23
}

/// Five groups of hexadecimal digits, of lengths 8, 4, 4, 4 and 12, with hyphens between.
pub open spec fn is_hyphenated_uuid(text: Seq<char>) -> bool {
    &&& text.len() == 36
    &&& forall|i: int|
        0 <= i < 36 ==> if is_hyphen_place(i) {
            #[trigger] text[i] == '-'
        } else {
            crate::text::is_hex_digit(text[i])
        }
}

/// The hyphenated form in small letters, which every UUID has just one of.
pub open spec fn is_canonical_uuid(text: Seq<char>) -> bool {
    is_hyphenated_uuid(text) && forall|i: int|
        0 <= i < 36 ==> !('A' <= #[trigger] text[i] <= 'F')
}

/// A UUID in one of its written forms: 32 digits; hyphenated; hyphenated in braces;
/// hyphenated behind `urn:uuid:` in any letter case.
pub open spec fn is_uuid_text(text: Seq<char>) -> bool {
    ||| text.len() == 32 && crate::text::all_hex(text)
    ||| is_hyphenated_uuid(text)
    ||| text.len() == 38 && text[0] == '{' && text[37] == '}' && is_hyphenated_uuid(
        text.subrange(1, 37),
    )
    ||| text.len() == 45 && text.take(9).map_values(|c: char| crate::text::lower(c)) == "urn:uuid:"@
        && is_hyphenated_uuid(text.skip(9))
}

/// `uuid::Uuid::new_v4` makes a random UUID, whose `Display` form is hyphenated, in
/// small letters. Which one comes is left to chance.
#[verifier::external_body]
fn fresh_uuid_text() -> (r: String)
    ensures
        is_canonical_uuid(r@),
{
    uuid::Uuid::new_v4().to_string()
}

/// `uuid::Uuid::parse_str` accepts exactly the written forms of a UUID that
/// [`is_uuid_text`] lists.
#[verifier::external_body]
fn parses_as_uuid(text: &str) -> (r: bool)
    ensures
        r == is_uuid_text(text@),
{
    uuid::Uuid::parse_str(text).is_ok()
}

/// `text` is `prefix` followed by a UUID.
pub open spec fn is_id_text(prefix: Seq<char>, text: Seq<char>) -> bool {
    &&& prefix.len() <= text.len()
    &&& text.take(prefix.len() as int) == prefix
    &&& is_uuid_text(text.skip(prefix.len() as int))
}

/// A new identifier with the given prefix.
fn fresh_id_text(prefix: &str) -> (r: String)
    ensures
        is_id_text(prefix@, r@),
        is_hyphenated_uuid(r@.skip(prefix@.len() as int)),
{
    let tail = fresh_uuid_text();
    let text = prefix.to_owned().concat(tail.as_str());
    proof {
        assert(text@.take(prefix@.len() as int) =~= prefix@);
        assert(text@.skip(prefix@.len() as int) =~= tail@);
    }
    text
}

/// Whether `text` is `prefix` followed by a UUID.
fn checks_as_id(prefix: &str, text: &str) -> (r: bool)
    ensures
        r == is_id_text(prefix@, text@),
{
    match strip_prefix(text, prefix) {
        Some(tail) => !tail.is_empty() && parses_as_uuid(tail),
        None => false,
    }
}

#[derive(Debug, PartialEq, Eq)]
pub struct InvalidIdError {
    pub id_type: &'static str,
    pub expected_prefix: &'static str,
    pub value: String,
}

/// What a [`InvalidIdError`] holds.
pub struct InvalidIdErrorModel {
    pub id_type: Seq<char>,
    pub expected_prefix: Seq<char>,
    pub value: Seq<char>,
}

impl DeepView for InvalidIdError {
    type V = InvalidIdErrorModel;

    open spec fn deep_view(&self) -> InvalidIdErrorModel {
        InvalidIdErrorModel {
            id_type: self.id_type.deep_view(),
            expected_prefix: self.expected_prefix.deep_view(),
            value: self.value.deep_view(),
        }
    }
}

impl View for InvalidIdError {
    type V = InvalidIdErrorModel;

    #[verifier::inline]
    open spec fn view(&self) -> InvalidIdErrorModel {
        self.deep_view()
    }
}

impl Record for InvalidIdError {
    fn duplicate(&self) -> (r: Self) {
        InvalidIdError {
            id_type: self.id_type.duplicate(),
            expected_prefix: self.expected_prefix.duplicate(),
            value: self.value.duplicate(),
        }
    }

    fn same(&self, other: &Self) -> (r: bool) {
        self.id_type.same(&other.id_type)
            && self.expected_prefix.same(&other.expected_prefix)
            && self.value.same(&other.value)
    }
}

impl Clone for InvalidIdError {
    fn clone(&self) -> (r: Self)
        ensures
            r.deep_view() == self.deep_view(),
    {
        self.duplicate()
    }
}

impl InvalidIdError {
    pub open spec fn message(id_type: Seq<char>, expected_prefix: Seq<char>) -> Seq<char> {
        id_type + " must be a prefixed opaque id starting with "@ + expected_prefix
            + " followed by a UUID"@
    }

    pub fn new(id_type: &'static str, expected_prefix: &'static str, value: String) -> (r: Self)
        ensures
            r@ == (InvalidIdErrorModel {
                id_type: id_type@,
                expected_prefix: expected_prefix@,
                value: value@,
            }),
    {
        InvalidIdError { id_type, expected_prefix, value }
    }

    /// The error as a sentence.
    pub fn to_text(&self) -> (r: String)
        ensures
            r@ == InvalidIdError::message(self.id_type@, self.expected_prefix@),
    {
        self.id_type.to_owned().concat(" must be a prefixed opaque id starting with ").concat(
            self.expected_prefix,
        ).concat(" followed by a UUID")
    }
}

/// Identifier with the prefix `repo_`.
#[derive(Debug, PartialEq, Eq, Hash, PartialOrd, Ord)]
pub struct RepositoryId(String);

impl DeepView for RepositoryId {
    type V = Seq<char>;

    closed spec fn deep_view(&self) -> Seq<char> {
        self.0@
    }
}

impl View for RepositoryId {
    type V = Seq<char>;

    #[verifier::inline]
    open spec fn view(&self) -> Seq<char> {
        self.deep_view()
    }
}

impl Record for RepositoryId {
    fn duplicate(&self) -> (r: Self) {
        proof {
            use_type_invariant(self);
        }
        RepositoryId(self.0.clone())
    }

    fn same(&self, other: &Self) -> (r: bool) {
        self.0 == other.0
    }
}

impl Clone for RepositoryId {
    fn clone(&self) -> (r: Self)
        ensures
            r.deep_view() == self.deep_view(),
    {
        self.duplicate()
    }
}

impl Default for RepositoryId {
    fn default() -> (r: Self)
        ensures
            is_id_text("repo_"@, r@),
    {
        RepositoryId::new()
    }
}

impl RepositoryId {
    #[verifier::type_invariant]
    spec fn well_formed(self) -> bool {
        is_id_text("repo_"@, self.0@)
    }

    /// A new identifier around a random UUID.
    pub fn new() -> (r: Self)
        ensures
            is_id_text("repo_"@, r@),
            is_hyphenated_uuid(r@.skip("repo_"@.len() as int)),
    {
        RepositoryId(fresh_id_text("repo_"))
    }

    pub fn try_from_string(value: String) -> (r: Result<Self, InvalidIdError>)
        ensures
            match r {
                Ok(id) => is_id_text("repo_"@, value@) && id@ == value@,
                Err(error) => !is_id_text("repo_"@, value@) && error@ == (InvalidIdErrorModel {
                    id_type: "RepositoryId"@,
                    expected_prefix: "repo_"@,
                    value: value@,
                }),
            },
    {
        if checks_as_id("repo_", value.as_str()) {
            Ok(RepositoryId(value))
        } else {
            Err(InvalidIdError::new("RepositoryId", "repo_", value))
        }
    }

    pub fn as_str(&self) -> (r: &str)
        ensures
            r@ == self@,
            is_id_text("repo_"@, r@),
    {
        proof {
            use_type_invariant(self);
        }
        self.0.as_str()
    }

    /// Every identifier carries its prefix.
    pub fn has_valid_prefix(&self) -> (r: bool)
        ensures
            r,
    {
        proof {
            use_type_invariant(self);
        }
        starts_with(self.0.as_str(), "repo_")
    }

    /// The identifier as a debugging form shows it: its type's name around the quoted text.
    pub open spec fn debug_form(id: Seq<char>) -> Seq<char> {
        "RepositoryId(\""@ + id + "\")"@
    }

    pub fn debug_text(&self) -> (r: String)
        ensures
            r@ == RepositoryId::debug_form(self@),
    {
        "RepositoryId(\"".to_owned().concat(self.0.as_str()).concat("\")")
    }
}

/// Identifier with the prefix `job_`.
#[derive(Debug, PartialEq, Eq, Hash, PartialOrd, Ord)]
pub struct JobId(String);

impl DeepView for JobId {
    type V = Seq<char>;

    closed spec fn deep_view(&self) -> Seq<char> {
        self.0@
    }
}

impl View for JobId {
    type V = Seq<char>;

    #[verifier::inline]
    open spec fn view(&self) -> Seq<char> {
        self.deep_view()
    }
}

impl Record for JobId {
    fn duplicate(&self) -> (r: Self) {
        proof {
            use_type_invariant(self);
        }
        JobId(self.0.clone())
    }

    fn same(&self, other: &Self) -> (r: bool) {
        self.0 == other.0
    }
}

impl Clone for JobId {
    fn clone(&self) -> (r: Self)
        ensures
            r.deep_view() == self.deep_view(),
    {
        self.duplicate()
    }
}

impl Default for JobId {
    fn default() -> (r: Self)
        ensures
            is_id_text("job_"@, r@),
    {
        JobId::new()
    }
}

impl JobId {
    #[verifier::type_invariant]
    spec fn well_formed(self) -> bool {
        is_id_text("job_"@, self.0@)
    }

    /// A new identifier around a random UUID.
    pub fn new() -> (r: Self)
        ensures
            is_id_text("job_"@, r@),
            is_hyphenated_uuid(r@.skip("job_"@.len() as int)),
    {
        JobId(fresh_id_text("job_"))
    }

    pub fn try_from_string(value: String) -> (r: Result<Self, InvalidIdError>)
        ensures
            match r {
                Ok(id) => is_id_text("job_"@, value@) && id@ == value@,
                Err(error) => !is_id_text("job_"@, value@) && error@ == (InvalidIdErrorModel {
                    id_type: "JobId"@,
                    expected_prefix: "job_"@,
                    value: value@,
                }),
            },
    {
        if checks_as_id("job_", value.as_str()) {
            Ok(JobId(value))
        } else {
            Err(InvalidIdError::new("JobId", "job_", value))
        }
    }

    pub fn as_str(&self) -> (r: &str)
        ensures
            r@ == self@,
            is_id_text("job_"@, r@),
    {
        proof {
            use_type_invariant(self);
        }
        self.0.as_str()
    }

    /// Every identifier carries its prefix.
    pub fn has_valid_prefix(&self) -> (r: bool)
        ensures
            r,
    {
        proof {
            use_type_invariant(self);
        }
        starts_with(self.0.as_str(), "job_")
    }

    /// The identifier as a debugging form shows it: its type's name around the quoted text.
    pub open spec fn debug_form(id: Seq<char>) -> Seq<char> {
        "JobId(\""@ + id + "\")"@
    }

    pub fn debug_text(&self) -> (r: String)
        ensures
            r@ == JobId::debug_form(self@),
    {
        "JobId(\"".to_owned().concat(self.0.as_str()).concat("\")")
    }
}

/// Identifier with the prefix `evt_`.
#[derive(Debug, PartialEq, Eq, Hash, PartialOrd, Ord)]
pub struct JobEventId(String);

impl DeepView for JobEventId {
    type V = Seq<char>;

    closed spec fn deep_view(&self) -> Seq<char> {
        self.0@
    }
}

impl View for JobEventId {
    type V = Seq<char>;

    #[verifier::inline]
    open spec fn view(&self) -> Seq<char> {
        self.deep_view()
    }
}

impl Record for JobEventId {
    fn duplicate(&self) -> (r: Self) {
        proof {
            use_type_invariant(self);
        }
        JobEventId(self.0.clone())
    }

    fn same(&self, other: &Self) -> (r: bool) {
        self.0 == other.0
    }
}

impl Clone for JobEventId {
    fn clone(&self) -> (r: Self)
        ensures
            r.deep_view() == self.deep_view(),
    {
        self.duplicate()
    }
}

impl Default for JobEventId {
    fn default() -> (r: Self)
        ensures
            is_id_text("evt_"@, r@),
    {
        JobEventId::new()
    }
}

impl JobEventId {
    #[verifier::type_invariant]
    spec fn well_formed(self) -> bool {
        is_id_text("evt_"@, self.0@)
    }

    /// A new identifier around a random UUID.
    pub fn new() -> (r: Self)
        ensures
            is_id_text("evt_"@, r@),
            is_hyphenated_uuid(r@.skip("evt_"@.len() as int)),
    {
        JobEventId(fresh_id_text("evt_"))
    }

    pub fn try_from_string(value: String) -> (r: Result<Self, InvalidIdError>)
        ensures
            match r {
                Ok(id) => is_id_text("evt_"@, value@) && id@ == value@,
                Err(error) => !is_id_text("evt_"@, value@) && error@ == (InvalidIdErrorModel {
                    id_type: "JobEventId"@,
                    expected_prefix: "evt_"@,
                    value: value@,
                }),
            },
    {
        if checks_as_id("evt_", value.as_str()) {
            Ok(JobEventId(value))
        } else {
            Err(InvalidIdError::new("JobEventId", "evt_", value))
        }
    }

    pub fn as_str(&self) -> (r: &str)
        ensures
            r@ == self@,
            is_id_text("evt_"@, r@),
    {
        proof {
            use_type_invariant(self);
        }
        self.0.as_str()
    }

    /// Every identifier carries its prefix.
    pub fn has_valid_prefix(&self) -> (r: bool)
        ensures
            r,
    {
        proof {
            use_type_invariant(self);
        }
        starts_with(self.0.as_str(), "evt_")
    }

    /// The identifier as a debugging form shows it: its type's name around the quoted text.
    pub open spec fn debug_form(id: Seq<char>) -> Seq<char> {
        "JobEventId(\""@ + id + "\")"@
    }

    pub fn debug_text(&self) -> (r: String)
        ensures
            r@ == JobEventId::debug_form(self@),
    {
        "JobEventId(\"".to_owned().concat(self.0.as_str()).concat("\")")
    }
}

/// Identifier with the prefix `pol_`.
#[derive(Debug, PartialEq, Eq, Hash, PartialOrd, Ord)]
pub struct PolicyDecisionId(String);

impl DeepView for PolicyDecisionId {
    type V = Seq<char>;

    closed spec fn deep_view(&self) -> Seq<char> {
        self.0@
    }
}

impl View for PolicyDecisionId {
    type V = Seq<char>;

    #[verifier::inline]
    open spec fn view(&self) -> Seq<char> {
        self.deep_view()
    }
}

impl Record for PolicyDecisionId {
    fn duplicate(&self) -> (r: Self) {
        proof {
            use_type_invariant(self);
        }
        PolicyDecisionId(self.0.clone())
    }

    fn same(&self, other: &Self) -> (r: bool) {
        self.0 == other.0
    }
}

impl Clone for PolicyDecisionId {
    fn clone(&self) -> (r: Self)
        ensures
            r.deep_view() == self.deep_view(),
    {
        self.duplicate()
    }
}

impl Default for PolicyDecisionId {
    fn default() -> (r: Self)
        ensures
            is_id_text("pol_"@, r@),
    {
        PolicyDecisionId::new()
    }
}

impl PolicyDecisionId {
    #[verifier::type_invariant]
    spec fn well_formed(self) -> bool {
        is_id_text("pol_"@, self.0@)
    }

    /// A new identifier around a random UUID.
    pub fn new() -> (r: Self)
        ensures
            is_id_text("pol_"@, r@),
            is_hyphenated_uuid(r@.skip("pol_"@.len() as int)),
    {
        PolicyDecisionId(fresh_id_text("pol_"))
    }

    pub fn try_from_string(value: String) -> (r: Result<Self, InvalidIdError>)
        ensures
            match r {
                Ok(id) => is_id_text("pol_"@, value@) && id@ == value@,
                Err(error) => !is_id_text("pol_"@, value@) && error@ == (InvalidIdErrorModel {
                    id_type: "PolicyDecisionId"@,
                    expected_prefix: "pol_"@,
                    value: value@,
                }),
            },
    {
        if checks_as_id("pol_", value.as_str()) {
            Ok(PolicyDecisionId(value))
        } else {
            Err(InvalidIdError::new("PolicyDecisionId", "pol_", value))
        }
    }

    pub fn as_str(&self) -> (r: &str)
        ensures
            r@ == self@,
            is_id_text("pol_"@, r@),
    {
        proof {
            use_type_invariant(self);
        }
        self.0.as_str()
    }

    /// Every identifier carries its prefix.
    pub fn has_valid_prefix(&self) -> (r: bool)
        ensures
            r,
    {
        proof {
            use_type_invariant(self);
        }
        starts_with(self.0.as_str(), "pol_")
    }

    /// The identifier as a debugging form shows it: its type's name around the quoted text.
    pub open spec fn debug_form(id: Seq<char>) -> Seq<char> {
        "PolicyDecisionId(\""@ + id + "\")"@
    }

    pub fn debug_text(&self) -> (r: String)
        ensures
            r@ == PolicyDecisionId::debug_form(self@),
    {
        "PolicyDecisionId(\"".to_owned().concat(self.0.as_str()).concat("\")")
    }
}

/// Identifier with the prefix `lock_`.
#[derive(Debug, PartialEq, Eq, Hash, PartialOrd, Ord)]
pub struct LockDecisionId(String);

impl DeepView for LockDecisionId {
    type V = Seq<char>;

    closed spec fn deep_view(&self) -> Seq<char> {
        self.0@
    }
}

impl View for LockDecisionId {
    type V = Seq<char>;

    #[verifier::inline]
    open spec fn view(&self) -> Seq<char> {
        self.deep_view()
    }
}

impl Record for LockDecisionId {
    fn duplicate(&self) -> (r: Self) {
        proof {
            use_type_invariant(self);
        }
        LockDecisionId(self.0.clone())
    }

    fn same(&self, other: &Self) -> (r: bool) {
        self.0 == other.0
    }
}

impl Clone for LockDecisionId {
    fn clone(&self) -> (r: Self)
        ensures
            r.deep_view() == self.deep_view(),
    {
        self.duplicate()
    }
}

impl Default for LockDecisionId {
    fn default() -> (r: Self)
        ensures
            is_id_text("lock_"@, r@),
    {
        LockDecisionId::new()
    }
}

impl LockDecisionId {
    #[verifier::type_invariant]
    spec fn well_formed(self) -> bool {
        is_id_text("lock_"@, self.0@)
    }

    /// A new identifier around a random UUID.
    pub fn new() -> (r: Self)
        ensures
            is_id_text("lock_"@, r@),
            is_hyphenated_uuid(r@.skip("lock_"@.len() as int)),
    {
        LockDecisionId(fresh_id_text("lock_"))
    }

    pub fn try_from_string(value: String) -> (r: Result<Self, InvalidIdError>)
        ensures
            match r {
                Ok(id) => is_id_text("lock_"@, value@) && id@ == value@,
                Err(error) => !is_id_text("lock_"@, value@) && error@ == (InvalidIdErrorModel {
                    id_type: "LockDecisionId"@,
                    expected_prefix: "lock_"@,
                    value: value@,
                }),
            },
    {
        if checks_as_id("lock_", value.as_str()) {
            Ok(LockDecisionId(value))
        } else {
            Err(InvalidIdError::new("LockDecisionId", "lock_", value))
        }
    }

    pub fn as_str(&self) -> (r: &str)
        ensures
            r@ == self@,
            is_id_text("lock_"@, r@),
    {
        proof {
            use_type_invariant(self);
        }
        self.0.as_str()
    }

    /// Every identifier carries its prefix.
    pub fn has_valid_prefix(&self) -> (r: bool)
        ensures
            r,
    {
        proof {
            use_type_invariant(self);
        }
        starts_with(self.0.as_str(), "lock_")
    }

    /// The identifier as a debugging form shows it: its type's name around the quoted text.
    pub open spec fn debug_form(id: Seq<char>) -> Seq<char> {
        "LockDecisionId(\""@ + id + "\")"@
    }

    pub fn debug_text(&self) -> (r: String)
        ensures
            r@ == LockDecisionId::debug_form(self@),
    {
        "LockDecisionId(\"".to_owned().concat(self.0.as_str()).concat("\")")
    }
}

/// Identifier with the prefix `tool_`.
#[derive(Debug, PartialEq, Eq, Hash, PartialOrd, Ord)]
pub struct ToolInvocationId(String);

impl DeepView for ToolInvocationId {
    type V = Seq<char>;

    closed spec fn deep_view(&self) -> Seq<char> {
        self.0@
    }
}

impl View for ToolInvocationId {
    type V = Seq<char>;

    #[verifier::inline]
    open spec fn view(&self) -> Seq<char> {
        self.deep_view()
    }
}

impl Record for ToolInvocationId {
    fn duplicate(&self) -> (r: Self) {
        proof {
            use_type_invariant(self);
        }
        ToolInvocationId(self.0.clone())
    }

    fn same(&self, other: &Self) -> (r: bool) {
        self.0 == other.0
    }
}

impl Clone for ToolInvocationId {
    fn clone(&self) -> (r: Self)
        ensures
            r.deep_view() == self.deep_view(),
    {
        self.duplicate()
    }
}

impl Default for ToolInvocationId {
    fn default() -> (r: Self)
        ensures
            is_id_text("tool_"@, r@),
    {
        ToolInvocationId::new()
    }
}

impl ToolInvocationId {
    #[verifier::type_invariant]
    spec fn well_formed(self) -> bool {
        is_id_text("tool_"@, self.0@)
    }

    /// A new identifier around a random UUID.
    pub fn new() -> (r: Self)
        ensures
            is_id_text("tool_"@, r@),
            is_hyphenated_uuid(r@.skip("tool_"@.len() as int)),
    {
        ToolInvocationId(fresh_id_text("tool_"))
    }

    pub fn try_from_string(value: String) -> (r: Result<Self, InvalidIdError>)
        ensures
            match r {
                Ok(id) => is_id_text("tool_"@, value@) && id@ == value@,
                Err(error) => !is_id_text("tool_"@, value@) && error@ == (InvalidIdErrorModel {
                    id_type: "ToolInvocationId"@,
                    expected_prefix: "tool_"@,
                    value: value@,
                }),
            },
    {
        if checks_as_id("tool_", value.as_str()) {
            Ok(ToolInvocationId(value))
        } else {
            Err(InvalidIdError::new("ToolInvocationId", "tool_", value))
        }
    }

    pub fn as_str(&self) -> (r: &str)
        ensures
            r@ == self@,
            is_id_text("tool_"@, r@),
    {
        proof {
            use_type_invariant(self);
        }
        self.0.as_str()
    }

    /// Every identifier carries its prefix.
    pub fn has_valid_prefix(&self) -> (r: bool)
        ensures
            r,
    {
        proof {
            use_type_invariant(self);
        }
        starts_with(self.0.as_str(), "tool_")
    }

    /// The identifier as a debugging form shows it: its type's name around the quoted text.
    pub open spec fn debug_form(id: Seq<char>) -> Seq<char> {
        "ToolInvocationId(\""@ + id + "\")"@
    }

    pub fn debug_text(&self) -> (r: String)
        ensures
            r@ == ToolInvocationId::debug_form(self@),
    {
        "ToolInvocationId(\"".to_owned().concat(self.0.as_str()).concat("\")")
    }
}

/// Identifier with the prefix `res_`.
#[derive(Debug, PartialEq, Eq, Hash, PartialOrd, Ord)]
pub struct ToolResultId(String);

impl DeepView for ToolResultId {
    type V = Seq<char>;

    closed spec fn deep_view(&self) -> Seq<char> {
        self.0@
    }
}

impl View for ToolResultId {
    type V = Seq<char>;

    #[verifier::inline]
    open spec fn view(&self) -> Seq<char> {
        self.deep_view()
    }
}

impl Record for ToolResultId {
    fn duplicate(&self) -> (r: Self) {
        proof {
            use_type_invariant(self);
        }
        ToolResultId(self.0.clone())
    }

    fn same(&self, other: &Self) -> (r: bool) {
        self.0 == other.0
    }
}

impl Clone for ToolResultId {
    fn clone(&self) -> (r: Self)
        ensures
            r.deep_view() == self.deep_view(),
    {
        self.duplicate()
    }
}

impl Default for ToolResultId {
    fn default() -> (r: Self)
        ensures
            is_id_text("res_"@, r@),
    {
        ToolResultId::new()
    }
}

impl ToolResultId {
    #[verifier::type_invariant]
    spec fn well_formed(self) -> bool {
        is_id_text("res_"@, self.0@)
    }

    /// A new identifier around a random UUID.
    pub fn new() -> (r: Self)
        ensures
            is_id_text("res_"@, r@),
            is_hyphenated_uuid(r@.skip("res_"@.len() as int)),
    {
        ToolResultId(fresh_id_text("res_"))
    }

    pub fn try_from_string(value: String) -> (r: Result<Self, InvalidIdError>)
        ensures
            match r {
                Ok(id) => is_id_text("res_"@, value@) && id@ == value@,
                Err(error) => !is_id_text("res_"@, value@) && error@ == (InvalidIdErrorModel {
                    id_type: "ToolResultId"@,
                    expected_prefix: "res_"@,
                    value: value@,
                }),
            },
    {
        if checks_as_id("res_", value.as_str()) {
            Ok(ToolResultId(value))
        } else {
            Err(InvalidIdError::new("ToolResultId", "res_", value))
        }
    }

    pub fn as_str(&self) -> (r: &str)
        ensures
            r@ == self@,
            is_id_text("res_"@, r@),
    {
        proof {
            use_type_invariant(self);
        }
        self.0.as_str()
    }

    /// Every identifier carries its prefix.
    pub fn has_valid_prefix(&self) -> (r: bool)
        ensures
            r,
    {
        proof {
            use_type_invariant(self);
        }
        starts_with(self.0.as_str(), "res_")
    }

    /// The identifier as a debugging form shows it: its type's name around the quoted text.
    pub open spec fn debug_form(id: Seq<char>) -> Seq<char> {
        "ToolResultId(\""@ + id + "\")"@
    }

    pub fn debug_text(&self) -> (r: String)
        ensures
            r@ == ToolResultId::debug_form(self@),
    {
        "ToolResultId(\"".to_owned().concat(self.0.as_str()).concat("\")")
    }
}

/// Identifier with the prefix `aud_`.
#[derive(Debug, PartialEq, Eq, Hash, PartialOrd, Ord)]
pub struct AuditRecordId(String);

impl DeepView for AuditRecordId {
    type V = Seq<char>;

    closed spec fn deep_view(&self) -> Seq<char> {
        self.0@
    }
}

impl View for AuditRecordId {
    type V = Seq<char>;

    #[verifier::inline]
    open spec fn view(&self) -> Seq<char> {
        self.deep_view()
    }
}

impl Record for AuditRecordId {
    fn duplicate(&self) -> (r: Self) {
        proof {
            use_type_invariant(self);
        }
        AuditRecordId(self.0.clone())
    }

    fn same(&self, other: &Self) -> (r: bool) {
        self.0 == other.0
    }
}

impl Clone for AuditRecordId {
    fn clone(&self) -> (r: Self)
        ensures
            r.deep_view() == self.deep_view(),
    {
        self.duplicate()
    }
}

impl Default for AuditRecordId {
    fn default() -> (r: Self)
        ensures
            is_id_text("aud_"@, r@),
    {
        AuditRecordId::new()
    }
}

impl AuditRecordId {
    #[verifier::type_invariant]
    spec fn well_formed(self) -> bool {
        is_id_text("aud_"@, self.0@)
    }

    /// A new identifier around a random UUID.
    pub fn new() -> (r: Self)
        ensures
            is_id_text("aud_"@, r@),
            is_hyphenated_uuid(r@.skip("aud_"@.len() as int)),
    {
        AuditRecordId(fresh_id_text("aud_"))
    }

    pub fn try_from_string(value: String) -> (r: Result<Self, InvalidIdError>)
        ensures
            match r {
                Ok(id) => is_id_text("aud_"@, value@) && id@ == value@,
                Err(error) => !is_id_text("aud_"@, value@) && error@ == (InvalidIdErrorModel {
                    id_type: "AuditRecordId"@,
                    expected_prefix: "aud_"@,
                    value: value@,
                }),
            },
    {
        if checks_as_id("aud_", value.as_str()) {
            Ok(AuditRecordId(value))
        } else {
            Err(InvalidIdError::new("AuditRecordId", "aud_", value))
        }
    }

    pub fn as_str(&self) -> (r: &str)
        ensures
            r@ == self@,
            is_id_text("aud_"@, r@),
    {
        proof {
            use_type_invariant(self);
        }
        self.0.as_str()
    }

    /// Every identifier carries its prefix.
    pub fn has_valid_prefix(&self) -> (r: bool)
        ensures
            r,
    {
        proof {
            use_type_invariant(self);
        }
        starts_with(self.0.as_str(), "aud_")
    }

    /// The identifier as a debugging form shows it: its type's name around the quoted text.
    pub open spec fn debug_form(id: Seq<char>) -> Seq<char> {
        "AuditRecordId(\""@ + id + "\")"@
    }

    pub fn debug_text(&self) -> (r: String)
        ensures
            r@ == AuditRecordId::debug_form(self@),
    {
        "AuditRecordId(\"".to_owned().concat(self.0.as_str()).concat("\")")
    }
}

/// Identifier with the prefix `mig_`.
#[derive(Debug, PartialEq, Eq, Hash, PartialOrd, Ord)]
pub struct SchemaMigrationId(String);

impl DeepView for SchemaMigrationId {
    type V = Seq<char>;

    closed spec fn deep_view(&self) -> Seq<char> {
        self.0@
    }
}

impl View for SchemaMigrationId {
    type V = Seq<char>;

    #[verifier::inline]
    open spec fn view(&self) -> Seq<char> {
        self.deep_view()
    }
}

impl Record for SchemaMigrationId {
    fn duplicate(&self) -> (r: Self) {
        proof {
            use_type_invariant(self);
        }
        SchemaMigrationId(self.0.clone())
    }

    fn same(&self, other: &Self) -> (r: bool) {
        self.0 == other.0
    }
}

impl Clone for SchemaMigrationId {
    fn clone(&self) -> (r: Self)
        ensures
            r.deep_view() == self.deep_view(),
    {
        self.duplicate()
    }
}

impl Default for SchemaMigrationId {
    fn default() -> (r: Self)
        ensures
            is_id_text("mig_"@, r@),
    {
        SchemaMigrationId::new()
    }
}

impl SchemaMigrationId {
    #[verifier::type_invariant]
    spec fn well_formed(self) -> bool {
        is_id_text("mig_"@, self.0@)
    }

    /// A new identifier around a random UUID.
    pub fn new() -> (r: Self)
        ensures
            is_id_text("mig_"@, r@),
            is_hyphenated_uuid(r@.skip("mig_"@.len() as int)),
    {
        SchemaMigrationId(fresh_id_text("mig_"))
    }

    pub fn try_from_string(value: String) -> (r: Result<Self, InvalidIdError>)
        ensures
            match r {
                Ok(id) => is_id_text("mig_"@, value@) && id@ == value@,
                Err(error) => !is_id_text("mig_"@, value@) && error@ == (InvalidIdErrorModel {
                    id_type: "SchemaMigrationId"@,
                    expected_prefix: "mig_"@,
                    value: value@,
                }),
            },
    {
        if checks_as_id("mig_", value.as_str()) {
            Ok(SchemaMigrationId(value))
        } else {
            Err(InvalidIdError::new("SchemaMigrationId", "mig_", value))
        }
    }

    pub fn as_str(&self) -> (r: &str)
        ensures
            r@ == self@,
            is_id_text("mig_"@, r@),
    {
        proof {
            use_type_invariant(self);
        }
        self.0.as_str()
    }

    /// Every identifier carries its prefix.
    pub fn has_valid_prefix(&self) -> (r: bool)
        ensures
            r,
    {
        proof {
            use_type_invariant(self);
        }
        starts_with(self.0.as_str(), "mig_")
    }

    /// The identifier as a debugging form shows it: its type's name around the quoted text.
    pub open spec fn debug_form(id: Seq<char>) -> Seq<char> {
        "SchemaMigrationId(\""@ + id + "\")"@
    }

    pub fn debug_text(&self) -> (r: String)
        ensures
            r@ == SchemaMigrationId::debug_form(self@),
    {
        "SchemaMigrationId(\"".to_owned().concat(self.0.as_str()).concat("\")")
    }
}

/// Identifier with the prefix `out_`.
#[derive(Debug, PartialEq, Eq, Hash, PartialOrd, Ord)]
pub struct OutputRefId(String);

impl DeepView for OutputRefId {
    type V = Seq<char>;

    closed spec fn deep_view(&self) -> Seq<char> {
        self.0@
    }
}

impl View for OutputRefId {
    type V = Seq<char>;

    #[verifier::inline]
    open spec fn view(&self) -> Seq<char> {
        self.deep_view()
    }
}

impl Record for OutputRefId {
    fn duplicate(&self) -> (r: Self) {
        proof {
            use_type_invariant(self);
        }
        OutputRefId(self.0.clone())
    }

    fn same(&self, other: &Self) -> (r: bool) {
        self.0 == other.0
    }
}

impl Clone for OutputRefId {
    fn clone(&self) -> (r: Self)
        ensures
            r.deep_view() == self.deep_view(),
    {
        self.duplicate()
    }
}

impl Default for OutputRefId {
    fn default() -> (r: Self)
        ensures
            is_id_text("out_"@, r@),
    {
        OutputRefId::new()
    }
}

impl OutputRefId {
    #[verifier::type_invariant]
    spec fn well_formed(self) -> bool {
        is_id_text("out_"@, self.0@)
    }

    /// A new identifier around a random UUID.
    pub fn new() -> (r: Self)
        ensures
            is_id_text("out_"@, r@),
            is_hyphenated_uuid(r@.skip("out_"@.len() as int)),
    {
        OutputRefId(fresh_id_text("out_"))
    }

    pub fn try_from_string(value: String) -> (r: Result<Self, InvalidIdError>)
        ensures
            match r {
                Ok(id) => is_id_text("out_"@, value@) && id@ == value@,
                Err(error) => !is_id_text("out_"@, value@) && error@ == (InvalidIdErrorModel {
                    id_type: "OutputRefId"@,
                    expected_prefix: "out_"@,
                    value: value@,
                }),
            },
    {
        if checks_as_id("out_", value.as_str()) {
            Ok(OutputRefId(value))
        } else {
            Err(InvalidIdError::new("OutputRefId", "out_", value))
        }
    }

    pub fn as_str(&self) -> (r: &str)
        ensures
            r@ == self@,
            is_id_text("out_"@, r@),
    {
        proof {
            use_type_invariant(self);
        }
        self.0.as_str()
    }

    /// Every identifier carries its prefix.
    pub fn has_valid_prefix(&self) -> (r: bool)
        ensures
            r,
    {
        proof {
            use_type_invariant(self);
        }
        starts_with(self.0.as_str(), "out_")
    }

    /// The identifier as a debugging form shows it: its type's name around the quoted text.
    pub open spec fn debug_form(id: Seq<char>) -> Seq<char> {
        "OutputRefId(\""@ + id + "\")"@
    }

    pub fn debug_text(&self) -> (r: String)
        ensures
            r@ == OutputRefId::debug_form(self@),
    {
        "OutputRefId(\"".to_owned().concat(self.0.as_str()).concat("\")")
    }
}

/// Identifier with the prefix `art_`.
#[derive(Debug, PartialEq, Eq, Hash, PartialOrd, Ord)]
pub struct ArtifactRefId(String);

impl DeepView for ArtifactRefId {
    type V = Seq<char>;

    closed spec fn deep_view(&self) -> Seq<char> {
        self.0@
    }
}

impl View for ArtifactRefId {
    type V = Seq<char>;

    #[verifier::inline]
    open spec fn view(&self) -> Seq<char> {
        self.deep_view()
    }
}

impl Record for ArtifactRefId {
    fn duplicate(&self) -> (r: Self) {
        proof {
            use_type_invariant(self);
        }
        ArtifactRefId(self.0.clone())
    }

    fn same(&self, other: &Self) -> (r: bool) {
        self.0 == other.0
    }
}

impl Clone for ArtifactRefId {
    fn clone(&self) -> (r: Self)
        ensures
            r.deep_view() == self.deep_view(),
    {
        self.duplicate()
    }
}

impl Default for ArtifactRefId {
    fn default() -> (r: Self)
        ensures
            is_id_text("art_"@, r@),
    {
        ArtifactRefId::new()
    }
}

impl ArtifactRefId {
    #[verifier::type_invariant]
    spec fn well_formed(self) -> bool {
        is_id_text("art_"@, self.0@)
    }

    /// A new identifier around a random UUID.
    pub fn new() -> (r: Self)
        ensures
            is_id_text("art_"@, r@),
            is_hyphenated_uuid(r@.skip("art_"@.len() as int)),
    {
        ArtifactRefId(fresh_id_text("art_"))
    }

    pub fn try_from_string(value: String) -> (r: Result<Self, InvalidIdError>)
        ensures
            match r {
                Ok(id) => is_id_text("art_"@, value@) && id@ == value@,
                Err(error) => !is_id_text("art_"@, value@) && error@ == (InvalidIdErrorModel {
                    id_type: "ArtifactRefId"@,
                    expected_prefix: "art_"@,
                    value: value@,
                }),
            },
    {
        if checks_as_id("art_", value.as_str()) {
            Ok(ArtifactRefId(value))
        } else {
            Err(InvalidIdError::new("ArtifactRefId", "art_", value))
        }
    }

    pub fn as_str(&self) -> (r: &str)
        ensures
            r@ == self@,
            is_id_text("art_"@, r@),
    {
        proof {
            use_type_invariant(self);
        }
        self.0.as_str()
    }

    /// Every identifier carries its prefix.
    pub fn has_valid_prefix(&self) -> (r: bool)
        ensures
            r,
    {
        proof {
            use_type_invariant(self);
        }
        starts_with(self.0.as_str(), "art_")
    }

    /// The identifier as a debugging form shows it: its type's name around the quoted text.
    pub open spec fn debug_form(id: Seq<char>) -> Seq<char> {
        "ArtifactRefId(\""@ + id + "\")"@
    }

    pub fn debug_text(&self) -> (r: String)
        ensures
            r@ == ArtifactRefId::debug_form(self@),
    {
        "ArtifactRefId(\"".to_owned().concat(self.0.as_str()).concat("\")")
    }
}

/// Identifier of a project: a UUID in its canonical form.
#[derive(Debug, PartialEq, Eq)]
pub struct ProjectId(String);

impl DeepView for ProjectId {
    type V = Seq<char>;

    closed spec fn deep_view(&self) -> Seq<char> {
        self.0@
    }
}

impl View for ProjectId {
    type V = Seq<char>;

    #[verifier::inline]
    open spec fn view(&self) -> Seq<char> {
        self.deep_view()
    }
}

impl Record for ProjectId {
    fn duplicate(&self) -> (r: Self) {
        proof {
            use_type_invariant(self);
        }
        ProjectId(self.0.clone())
    }

    fn same(&self, other: &Self) -> (r: bool) {
        self.0 == other.0
    }
}

impl Clone for ProjectId {
    fn clone(&self) -> (r: Self)
        ensures
            r.deep_view() == self.deep_view(),
    {
        self.duplicate()
    }
}

impl Default for ProjectId {
    fn default() -> (r: Self)
        ensures
            is_canonical_uuid(r@),
    {
        ProjectId::new()
    }
}

fn checks_as_canonical_uuid(text: &str) -> (r: bool)
    ensures
        r == is_canonical_uuid(text@),
{
    let chars = chars_of(text);
    if chars.len() != 36 {
        return false;
    }
    let mut i: usize = 0;
    while i < 36
        invariant
            i <= 36,
            chars@ == text@,
            chars.len() == 36,
            forall|j: int|
                0 <= j < i ==> if is_hyphen_place(j) {
                    #[trigger] text@[j] == '-'
                } else {
                    crate::text::is_hex_digit(text@[j])
                },
            forall|j: int| 0 <= j < i ==> !('A' <= #[trigger] text@[j] <= 'F'),
        decreases 36 - i,
    {
        let c = chars[i];
        let fits = if i == 8 || i == 13 || i == 18 || i == 23 {
            c == '-'
        } else {
            ('0' <= c && c <= '9') || ('a' <= c && c <= 'f')
        };
        if !fits {
            assert(text@[i as int] == c);
            return false;
        }
        i += 1;
    }
    true
}

impl ProjectId {
    #[verifier::type_invariant]
    spec fn well_formed(self) -> bool {
        is_canonical_uuid(self.0@)
    }

    /// A new identifier around a random UUID.
    pub fn new() -> (r: Self)
        ensures
            is_canonical_uuid(r@),
    {
        ProjectId(fresh_uuid_text())
    }

    /// The identifier that a text in canonical form stands for.
    pub fn from_uuid_text(text: String) -> (r: Option<Self>)
        ensures
            match r {
                Some(id) => is_canonical_uuid(text@) && id@ == text@,
                None => !is_canonical_uuid(text@),
            },
    {
        if checks_as_canonical_uuid(text.as_str()) {
            Some(ProjectId(text))
        } else {
            None
        }
    }

    pub fn as_str(&self) -> (r: &str)
        ensures
            r@ == self@,
            is_canonical_uuid(r@),
    {
        proof {
            use_type_invariant(self);
        }
        self.0.as_str()
    }

    /// The identifier as a debugging form shows it.
    pub open spec fn debug_form(id: Seq<char>) -> Seq<char> {
        "ProjectId("@ + id + ")"@
    }

    pub fn debug_text(&self) -> (r: String)
        ensures
            r@ == ProjectId::debug_form(self@),
    {
        "ProjectId(".to_owned().concat(self.0.as_str()).concat(")")
    }
}

/// Identifier of feedback: a UUID in its canonical form.
#[derive(Debug, PartialEq, Eq)]
pub struct FeedbackId(String);

impl DeepView for FeedbackId {
    type V = Seq<char>;

    closed spec fn deep_view(&self) -> Seq<char> {
        self.0@
    }
}

impl View for FeedbackId {
    type V = Seq<char>;

    #[verifier::inline]
    open spec fn view(&self) -> Seq<char> {
        self.deep_view()
    }
}

impl Record for FeedbackId {
    fn duplicate(&self) -> (r: Self) {
        proof {
            use_type_invariant(self);
        }
        FeedbackId(self.0.clone())
    }

    fn same(&self, other: &Self) -> (r: bool) {
        self.0 == other.0
    }
}

impl Clone for FeedbackId {
    fn clone(&self) -> (r: Self)
        ensures
            r.deep_view() == self.deep_view(),
    {
        self.duplicate()
    }
}

impl Default for FeedbackId {
    fn default() -> (r: Self)
        ensures
            is_canonical_uuid(r@),
    {
        FeedbackId::new()
    }
}

impl FeedbackId {
    #[verifier::type_invariant]
    spec fn well_formed(self) -> bool {
        is_canonical_uuid(self.0@)
    }

    /// A new identifier around a random UUID.
    pub fn new() -> (r: Self)
        ensures
            is_canonical_uuid(r@),
    {
        FeedbackId(fresh_uuid_text())
    }

    /// The identifier that a text in canonical form stands for.
    pub fn from_uuid_text(text: String) -> (r: Option<Self>)
        ensures
            match r {
                Some(id) => is_canonical_uuid(text@) && id@ == text@,
                None => !is_canonical_uuid(text@),
            },
    {
        if checks_as_canonical_uuid(text.as_str()) {
            Some(FeedbackId(text))
        } else {
            None
        }
    }

    pub fn as_str(&self) -> (r: &str)
        ensures
            r@ == self@,
            is_canonical_uuid(r@),
    {
        proof {
            use_type_invariant(self);
        }
        self.0.as_str()
    }
}

} // verus!
