//! The extraction engine: a compiled rule list of the `ua_parser` crate,
//! built once at startup and then shared read-only, and the classification
//! entry point that runs it over a user-agent string and normalizes its
//! matches.

use vstd::prelude::*;

use crate::browser::{
    browser_from_matches, browser_match_of_capture, browser_of_matches, os_match_of_capture,
    Browser, BrowserCapture, BrowserMatch, DeviceMatch, OsCapture, OsMatch,
};

verus! {

/// Declares ua_parser's compiled extractor so it can stand in a field; its
/// values are opaque here.
#[verifier::external_type_specification]
#[verifier::external_body]
pub struct ExExtractor<'a>(ua_parser::Extractor<'a>);

/// Why the engine could not be built from a ruleset text.
#[derive(Debug, Clone, Copy, PartialEq, Eq, Structural)]
pub enum EngineError {
    /// The text is not valid YAML for the expected rule-list shape.
    InvalidRuleset,
    /// The rules could not be compiled, for instance over a malformed
    /// pattern.
    UnsupportedRuleset,
}

/// The compiled extraction engine. Building it is expensive, so a process
/// builds it once at startup and every classification call shares it
/// read-only.
pub struct Engine {
    extractor: ua_parser::Extractor<'static>,
}

/// Relies on String::leak: the returned slice holds exactly the characters
/// of the given string and lives for the rest of the process.
#[verifier::external_body]
fn leak_ruleset(text: String) -> (r: &'static str)
    ensures
        r@ == text@,
{
    String::leak(text)
}

/// Whether serde_yaml::from_str deserializes this text into ua_parser's
/// rule list: a function of the text alone.
pub uninterp spec fn ruleset_parses(text: Seq<char>) -> bool;

/// Whether ua_parser::Extractor::try_from compiles the rule list that this
/// text parses into: a function of the text alone; it says nothing of a
/// text that does not parse.
pub uninterp spec fn ruleset_compiles(text: Seq<char>) -> bool;

/// The outcome of compiling a ruleset text: the extractor, or the first
/// step that failed.
type CompileOutcome = Result<ua_parser::Extractor<'static>, EngineError>;

/// Relies on serde_yaml::from_str and ua_parser::Extractor::try_from: the
/// text either parses and compiles into an extractor, or the first step
/// that failed is reported; both steps are deterministic in the text, and
/// neither panics — every failure comes back as an error value.
#[verifier::external_body]
fn compile_ruleset(text: &'static str) -> (r: CompileOutcome)
    ensures
        r is Ok <==> (ruleset_parses(text@) && ruleset_compiles(text@)),
        (r is Err && !ruleset_parses(text@)) ==> r->Err_0 == EngineError::InvalidRuleset,
        (r is Err && ruleset_parses(text@)) ==> r->Err_0 == EngineError::UnsupportedRuleset,
{
    match serde_yaml::from_str::<ua_parser::Regexes<'static>>(text) {
        Err(_) => Err(EngineError::InvalidRuleset),
        Ok(rules) => match ua_parser::Extractor::try_from(rules) {
            Err(_) => Err(EngineError::UnsupportedRuleset),
            Ok(extractor) => Ok(extractor),
        },
    }
}

/// Relies on ua_parser::user_agent::Extractor::extract: hands out the data
/// of the first browser rule matching the user-agent string, or nothing when
/// no rule matches. The result depends on the engine's rules, so nothing is
/// claimed of it.
#[verifier::external_body]
fn extract_browser(engine: &Engine, ua: &str) -> (m: Option<BrowserCapture>) {
    engine.extractor.ua.extract(ua).map(|v| BrowserCapture {
        family: v.family.into_owned(),
        major: v.major.map(|s| s.to_string()),
        minor: v.minor.map(|s| s.to_string()),
        patch: v.patch.map(|s| s.to_string()),
        patch_minor: v.patch_minor.map(|s| s.to_string()),
    })
}

/// Relies on ua_parser::os::Extractor::extract: hands out the data of the
/// first operating-system rule matching the user-agent string, or nothing
/// when no rule matches.
#[verifier::external_body]
fn extract_os(engine: &Engine, ua: &str) -> (m: Option<OsCapture>) {
    engine.extractor.os.extract(ua).map(|v| OsCapture {
        os: v.os.into_owned(),
        major: v.major.map(|s| s.into_owned()),
        minor: v.minor.map(|s| s.into_owned()),
        patch: v.patch.map(|s| s.into_owned()),
        patch_minor: v.patch_minor.map(|s| s.into_owned()),
    })
}

/// Relies on ua_parser::device::Extractor::extract: hands out the data of
/// the first device rule matching the user-agent string, or nothing when no
/// rule matches.
#[verifier::external_body]
fn extract_device(engine: &Engine, ua: &str) -> (m: Option<DeviceMatch>) {
    engine.extractor.dev.extract(ua).map(|v| DeviceMatch {
        brand: v.brand.map(|s| s.into_owned()),
        model: v.model.map(|s| s.into_owned()),
        device: v.device.into_owned(),
    })
}

impl Engine {
    /// Builds the engine from the YAML text of a rule list. Failure is
    /// fatal for classification: the engine cannot operate without a
    /// compiled rule list, and no partial operation is attempted. The
    /// outcome is decided by the text: it succeeds exactly when the text
    /// parses as a rule list whose rules compile, and each error names the
    /// first step that failed.
    pub fn from_ruleset(ruleset: String) -> (r: Result<Engine, EngineError>)
        ensures
            r is Ok <==> ruleset_parses(ruleset@) && ruleset_compiles(ruleset@),
            r is Err && r->Err_0 == EngineError::InvalidRuleset <==> !ruleset_parses(ruleset@),
            r is Err && r->Err_0 == EngineError::UnsupportedRuleset <==> ruleset_parses(ruleset@)
                && !ruleset_compiles(ruleset@),
    {
        let text = leak_ruleset(ruleset);
        match compile_ruleset(text) {
            Ok(extractor) => Ok(Engine { extractor }),
            Err(e) => Err(e),
        }
    }
}

/// Classifies one user-agent string: runs the engine once and normalizes
/// whatever matches came back into a canonical record. The result is the
/// normalization of some triple of optional matches, and its operating
/// system is always populated.
pub fn convert_from_user_agent(engine: &Engine, ua: &str) -> (b: Browser)
    ensures
        b.os is Some,
        exists|bm: Option<BrowserMatch>, om: Option<OsMatch>, dm: Option<DeviceMatch>|
            browser_of_matches(b, bm, om, dm),
{
    let bc = extract_browser(engine, ua);
    let bm: Option<BrowserMatch> = match &bc {
        Some(c) => Some(browser_match_of_capture(c)),
        None => None,
    };
    let oc = extract_os(engine, ua);
    let om: Option<OsMatch> = match &oc {
        Some(c) => Some(os_match_of_capture(c)),
        None => None,
    };
    let dm = extract_device(engine, ua);
    let ghost gbm = bm;
    let ghost gom = om;
    let ghost gdm = dm;
    let b = browser_from_matches(bm, om, dm);
    proof {
        assert(browser_of_matches(b, gbm, gom, gdm));
    }
    b
}

} // verus!
