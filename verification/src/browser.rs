//! The data model: the engine's partial matches, textual captures as the
//! engine hands them out, and the canonical `Browser` record assembled from
//! them.

use vstd::prelude::*;

use crate::device::{resolve_device, spec_resolve_device};
use crate::version::{format_version, parse_component, parsed_component, spec_version};

verus! {

/// The browser information: the result of classifying one user-agent
/// string.
#[derive(Debug, Clone, Default)]
pub struct Browser {
    /// a browser name
    pub name: String,
    /// a browser version
    pub version: String,
    /// a operating system
    pub os: Option<Os>,
    /// a device model
    pub device: String,
}

/// The operating system information inside a `Browser` record.
#[derive(Debug, Clone)]
pub struct Os {
    /// a operating system name
    pub name: String,
    /// a operating system version
    pub version: String,
}

/// A browser match: a family name and up to four numeric version
/// components, present contiguously from the left in well-formed engine
/// output.
#[derive(Debug, Clone)]
pub struct BrowserMatch {
    pub family: String,
    pub major: Option<u64>,
    pub minor: Option<u64>,
    pub patch: Option<u64>,
    pub patch_minor: Option<u64>,
}

/// An operating-system match: a name and up to four numeric version
/// components.
#[derive(Debug, Clone)]
pub struct OsMatch {
    pub os: String,
    pub major: Option<u64>,
    pub minor: Option<u64>,
    pub patch: Option<u64>,
    pub patch_minor: Option<u64>,
}

/// A device match: optional brand and model fields and the required raw
/// device string, which may be empty.
#[derive(Debug, Clone)]
pub struct DeviceMatch {
    pub brand: Option<String>,
    pub model: Option<String>,
    pub device: String,
}

/// The textual fields of one browser rule match, as the extraction engine
/// hands them out: version components are still text.
#[derive(Debug, Clone)]
pub struct BrowserCapture {
    pub family: String,
    pub major: Option<String>,
    pub minor: Option<String>,
    pub patch: Option<String>,
    pub patch_minor: Option<String>,
}

/// The textual fields of one operating-system rule match.
#[derive(Debug, Clone)]
pub struct OsCapture {
    pub os: String,
    pub major: Option<String>,
    pub minor: Option<String>,
    pub patch: Option<String>,
    pub patch_minor: Option<String>,
}

/// Builds the browser match from the engine's textual capture: the family
/// is kept, and each version component is read as a decimal number; one that
/// is not a plain decimal number is treated as absent.
pub fn browser_match_of_capture(c: &BrowserCapture) -> (m: BrowserMatch)
    ensures
        m.family@ == c.family@,
        m.major == parsed_component(c.major.deep_view()),
        m.minor == parsed_component(c.minor.deep_view()),
        m.patch == parsed_component(c.patch.deep_view()),
        m.patch_minor == parsed_component(c.patch_minor.deep_view()),
{
    BrowserMatch {
        family: c.family.clone(),
        major: parse_component(&c.major),
        minor: parse_component(&c.minor),
        patch: parse_component(&c.patch),
        patch_minor: parse_component(&c.patch_minor),
    }
}

/// Builds the operating-system match from the engine's textual capture, as
/// `browser_match_of_capture` does for the browser.
pub fn os_match_of_capture(c: &OsCapture) -> (m: OsMatch)
    ensures
        m.os@ == c.os@,
        m.major == parsed_component(c.major.deep_view()),
        m.minor == parsed_component(c.minor.deep_view()),
        m.patch == parsed_component(c.patch.deep_view()),
        m.patch_minor == parsed_component(c.patch_minor.deep_view()),
{
    OsMatch {
        os: c.os.clone(),
        major: parse_component(&c.major),
        minor: parse_component(&c.minor),
        patch: parse_component(&c.patch),
        patch_minor: parse_component(&c.patch_minor),
    }
}

/// How a `Browser` record relates to the three optional matches it was
/// assembled from: names default to empty, each version string is the
/// formatted version of the match's components, the operating system is
/// always populated, and the device string is the resolver's pick.
pub open spec fn browser_of_matches(
    b: Browser,
    bm: Option<BrowserMatch>,
    om: Option<OsMatch>,
    dm: Option<DeviceMatch>,
) -> bool {
    &&& b.name@ == (match bm {
        Some(m) => m.family@,
        None => Seq::<char>::empty(),
    })
    &&& b.version@ == (match bm {
        Some(m) => spec_version(m.major, m.minor, m.patch, m.patch_minor),
        None => Seq::<char>::empty(),
    })
    &&& b.os is Some
    &&& b.os->0.name@ == (match om {
        Some(m) => m.os@,
        None => Seq::<char>::empty(),
    })
    &&& b.os->0.version@ == (match om {
        Some(m) => spec_version(m.major, m.minor, m.patch, m.patch_minor),
        None => Seq::<char>::empty(),
    })
    &&& b.device@ == (match dm {
        Some(m) => spec_resolve_device(m.brand.deep_view(), m.model.deep_view(), m.device@),
        None => Seq::<char>::empty(),
    })
}

/// Assembles the canonical record from the three optional matches. The
/// operating system is always populated, also when no match occurred: the
/// record distinguishes no match (empty strings) from absence.
pub fn browser_from_matches(
    bm: Option<BrowserMatch>,
    om: Option<OsMatch>,
    dm: Option<DeviceMatch>,
) -> (b: Browser)
    ensures
        browser_of_matches(b, bm, om, dm),
{
    let (name, version) = match &bm {
        Some(m) => (m.family.clone(), format_version(m.major, m.minor, m.patch, m.patch_minor)),
        None => (String::new(), String::new()),
    };
    let (os_name, os_version) = match &om {
        Some(m) => (m.os.clone(), format_version(m.major, m.minor, m.patch, m.patch_minor)),
        None => (String::new(), String::new()),
    };
    let device = match &dm {
        Some(m) => {
            let brand: Option<&str> = match &m.brand {
                Some(b) => Some(b.as_str()),
                None => None,
            };
            let model: Option<&str> = match &m.model {
                Some(t) => Some(t.as_str()),
                None => None,
            };
            proof {
                assert(brand.deep_view() == m.brand.deep_view());
                assert(model.deep_view() == m.model.deep_view());
            }
            resolve_device(brand, model, m.device.as_str())
        },
        None => String::new(),
    };
    Browser { name, version, os: Some(Os { name: os_name, version: os_version }), device }
}

} // verus!
