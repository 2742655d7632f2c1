//! Capture of the client library's version macro and the semantic-version
//! gate built on the captured value.
//!
//! While the binding generator parses the headers, its callback reports
//! every macro it encounters; exactly one named macro is let through and
//! its value stored, a later observation replacing an earlier one. A
//! version-range requirement, written as a quoted literal, then decides
//! whether a guarded code fragment is retained or discarded; a version or
//! requirement that does not parse, and a malformed requirement argument,
//! are fatal rather than silently decided either way.

use vstd::prelude::*;
use vstd::string::*;

verus! {

#[verifier::external_type_specification]
#[verifier::external_body]
pub struct ExVersion(semver::Version);

#[verifier::external_type_specification]
#[verifier::external_body]
pub struct ExVersionReq(semver::VersionReq);

/// Whether a version text parses as a semantic version.
pub uninterp spec fn version_parse_ok(s: Seq<char>) -> bool;

/// Whether a requirement text parses as a semantic-version range.
pub uninterp spec fn requirement_parse_ok(s: Seq<char>) -> bool;

/// Whether the version written as `version` satisfies the range written
/// as `requirement`. Both parses are deterministic, so the outcome is a
/// function of the two texts alone.
pub uninterp spec fn requirement_matches(requirement: Seq<char>, version: Seq<char>) -> bool;

/// A parsed semantic version, remembering the text it was parsed from.
pub struct ParsedVersion {
    inner: semver::Version,
    text: String,
}

impl ParsedVersion {
    /// The text this version was parsed from.
    pub closed spec fn text(&self) -> Seq<char> {
        self.text@
    }
}

/// A parsed semantic-version range, remembering the text it was parsed
/// from.
pub struct ParsedRequirement {
    inner: semver::VersionReq,
    text: String,
}

impl ParsedRequirement {
    /// The text this range was parsed from.
    pub closed spec fn text(&self) -> Seq<char> {
        self.text@
    }
}

/// Relies on semver::Version::parse: whether the text is accepted, and
/// the version value, depend on the text alone.
#[verifier::external_body]
fn parse_version(s: &str) -> (r: Option<ParsedVersion>)
    ensures
        r is Some <==> version_parse_ok(s@),
        r matches Some(v) ==> v.text() == s@,
{
    match semver::Version::parse(s) {
        Ok(inner) => Some(ParsedVersion { inner, text: s.to_owned() }),
        Err(_) => None,
    }
}

/// Relies on semver::VersionReq::parse: whether the text is accepted, and
/// the range value, depend on the text alone.
#[verifier::external_body]
fn parse_requirement(s: &str) -> (r: Option<ParsedRequirement>)
    ensures
        r is Some <==> requirement_parse_ok(s@),
        r matches Some(q) ==> q.text() == s@,
{
    match semver::VersionReq::parse(s) {
        Ok(inner) => Some(ParsedRequirement { inner, text: s.to_owned() }),
        Err(_) => None,
    }
}

/// Relies on semver::VersionReq::matches: whether a version satisfies a
/// range depends on the two values alone, and through the deterministic
/// parses on the two texts alone.
#[verifier::external_body]
fn requirement_matches_version(requirement: &ParsedRequirement, version: &ParsedVersion) -> (r:
    bool)
    ensures
        r == requirement_matches(requirement.text(), version.text()),
{
    requirement.inner.matches(&version.inner)
}

/// The one macro whose value is captured during binding generation: the
/// client library's server-version macro.
pub open spec fn target_macro_text() -> Seq<char> {
    "MYSQL_SERVER_VERSION"@
}

/// The single entry of the capture allow-list: every other macro is
/// ignored.
pub fn macro_allowed(name: &str) -> (b: bool)
    ensures
        b == (name@ == target_macro_text()),
{
    String::from_str(name).eq(&String::from_str("MYSQL_SERVER_VERSION"))
}

/// What one observation leaves in the capture cell: the observed value
/// when the macro is the targeted one, the previous contents otherwise.
pub open spec fn observed(
    cell: Option<Seq<char>>,
    name: Seq<char>,
    value: Seq<char>,
) -> Option<Seq<char>> {
    if name == target_macro_text() {
        Option::Some(value)
    } else {
        cell
    }
}

/// The capture cell for the version macro: empty until the targeted macro
/// is observed, then holding the value of its latest observation. One
/// cell is written during the single generation pass and read once
/// afterwards.
pub struct MacroCapture {
    value: Option<String>,
}

impl MacroCapture {
    /// The text held by the cell, absent until the targeted macro has
    /// been observed.
    pub closed spec fn captured(&self) -> Option<Seq<char>> {
        match self.value {
            Option::Some(s) => Option::Some(s@),
            Option::None => Option::None,
        }
    }

    /// An empty cell: nothing has been observed.
    pub fn new() -> (c: Self)
        ensures
            c.captured() is None,
    {
        MacroCapture { value: None }
    }

    /// One observation of a macro and its text value. Only the targeted
    /// macro is let through; its value replaces whatever the cell held,
    /// so a repeated observation overwrites rather than accumulates.
    pub fn observe(&mut self, name: &str, value: &str)
        ensures
            final (self).captured() == observed(old(self).captured(), name@, value@),
    {
        if macro_allowed(name) {
            self.value = Some(String::from_str(value));
        }
    }

    /// The captured text, read after generation completes.
    pub fn captured_value(&self) -> (r: Option<&String>)
        ensures
            match r {
                Option::Some(s) => self.captured() == Option::Some(s@),
                Option::None => self.captured() is None,
            },
    {
        self.value.as_ref()
    }
}

/// A later observation of the targeted macro replaces an earlier one:
/// whatever the cell held before, after two captures it holds exactly the
/// final value, and only that one value is ever read afterwards.
pub proof fn lemma_single_capture(cell: Option<Seq<char>>, first: Seq<char>, second: Seq<char>)
    ensures
        observed(observed(cell, target_macro_text(), first), target_macro_text(), second)
            == Option::<Seq<char>>::Some(second),
{
}

/// The fate of a guarded code fragment.
#[derive(Clone, Copy, Debug, PartialEq, Eq, Structural)]
pub enum GateDecision {
    /// The requirement is satisfied: the fragment is kept unchanged.
    Retain,
    /// The requirement is not satisfied: the fragment is deleted.
    Discard,
}

/// The fatal conditions of the version guard. None of them retains or
/// discards silently: each aborts the build.
#[derive(Clone, Copy, Debug, PartialEq, Eq, Structural)]
pub enum GateError {
    /// No version was captured during binding generation.
    MissingVersion,
    /// The captured version text does not parse as a semantic version.
    UnparseableVersion,
    /// The requirement argument is not a quoted literal, or its contents
    /// do not parse as a semantic-version range.
    MalformedUsage,
}

/// The diagnostic for each fatal guard condition.
pub open spec fn gate_error_text(e: GateError) -> Seq<char> {
    match e {
        GateError::MissingVersion => "no value was captured for `MYSQL_SERVER_VERSION` during binding generation"@,
        GateError::UnparseableVersion => "`MYSQL_SERVER_VERSION` did not provide a parseable version"@,
        GateError::MalformedUsage => "Expected a valid semantic version requirement string as argument to `mysqlclient_version`"@,
    }
}

impl GateError {
    pub fn message(&self) -> (r: String)
        ensures
            r@ == gate_error_text(*self),
    {
        match self {
            GateError::MissingVersion => String::from_str(
                "no value was captured for `MYSQL_SERVER_VERSION` during binding generation",
            ),
            GateError::UnparseableVersion => String::from_str(
                "`MYSQL_SERVER_VERSION` did not provide a parseable version",
            ),
            GateError::MalformedUsage => String::from_str(
                "Expected a valid semantic version requirement string as argument to `mysqlclient_version`",
            ),
        }
    }
}

/// The contents of a quoted literal: the text between its delimiters.
pub open spec fn literal_contents(s: Seq<char>) -> Seq<char> {
    s.subrange(1, s.len() - 1)
}

/// The requirement text inside the guard's argument. The argument must be
/// a literal token of at least the two delimiter characters; anything
/// else is the fixed usage error. `literal` is the literal's text when
/// the argument's first token was one, and absent otherwise.
pub fn requirement_from_literal(literal: Option<&str>) -> (r: Result<String, GateError>)
    ensures
        match literal {
            Option::None => r == Result::<String, GateError>::Err(GateError::MalformedUsage),
            Option::Some(s) => {
                if s@.len() < 2 {
                    r == Result::<String, GateError>::Err(GateError::MalformedUsage)
                } else {
                    r matches Ok(t) && t@ == literal_contents(s@)
                }
            },
        },
{
    match literal {
        None => Err(GateError::MalformedUsage),
        Some(s) => {
            let n = s.unicode_len();
            if n < 2 {
                Err(GateError::MalformedUsage)
            } else {
                Ok(String::from_str(s.substring_char(1, n - 1)))
            }
        },
    }
}

/// The decision for a guarded fragment, as a function of the captured
/// version text and the requirement argument.
pub open spec fn gate_outcome(version: Seq<char>, literal: Option<Seq<char>>) -> Result<
    GateDecision,
    GateError,
> {
    if !version_parse_ok(version) {
        Result::Err(GateError::UnparseableVersion)
    } else {
        match literal {
            Option::None => Result::Err(GateError::MalformedUsage),
            Option::Some(a) => {
                if a.len() < 2 {
                    Result::Err(GateError::MalformedUsage)
                } else if !requirement_parse_ok(literal_contents(a)) {
                    Result::Err(GateError::MalformedUsage)
                } else if requirement_matches(literal_contents(a), version) {
                    Result::Ok(GateDecision::Retain)
                } else {
                    Result::Ok(GateDecision::Discard)
                }
            },
        }
    }
}

/// The version guard. `version` is the captured version text and
/// `attr_literal` the text of the guard's first argument token when that
/// token was a literal. The guarded fragment is retained exactly when
/// the version satisfies the requirement; every malformed input is a
/// fatal error, never a silent decision.
pub fn mysqlclient_version(version: &str, attr_literal: Option<&str>) -> (r: Result<
    GateDecision,
    GateError,
>)
    ensures
        r == gate_outcome(
            version@,
            match attr_literal {
                Option::Some(s) => Option::Some(s@),
                Option::None => Option::None,
            },
        ),
{
    let parsed = match parse_version(version) {
        None => {
            return Err(GateError::UnparseableVersion);
        },
        Some(v) => v,
    };
    let requirement_text = match requirement_from_literal(attr_literal) {
        Err(e) => {
            return Err(e);
        },
        Ok(t) => t,
    };
    let requirement = match parse_requirement(requirement_text.as_str()) {
        None => {
            return Err(GateError::MalformedUsage);
        },
        Some(q) => q,
    };
    if requirement_matches_version(&requirement, &parsed) {
        Ok(GateDecision::Retain)
    } else {
        Ok(GateDecision::Discard)
    }
}

/// The version guard evaluated against the capture cell: absence of a
/// captured version is itself fatal, and otherwise the captured text
/// decides as `mysqlclient_version` does.
pub fn gate_from_capture(capture: &MacroCapture, attr_literal: Option<&str>) -> (r: Result<
    GateDecision,
    GateError,
>)
    ensures
        match capture.captured() {
            Option::None => r == Result::<GateDecision, GateError>::Err(GateError::MissingVersion),
            Option::Some(v) => r == gate_outcome(
                v,
                match attr_literal {
                    Option::Some(s) => Option::Some(s@),
                    Option::None => Option::None,
                },
            ),
        },
{
    match capture.captured_value() {
        None => Err(GateError::MissingVersion),
        Some(version) => mysqlclient_version(version.as_str(), attr_literal),
    }
}

} // verus!
