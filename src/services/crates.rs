//! Badges about crates published on crates.io.

use vstd::prelude::*;
use vstd::string::*;
use crate::json::{int_at, int_field, str_at, str_field};
use crate::scieldas::{Scield, ScieldRequest, TextScield};
use serde_json::Value;

verus! {

/// Base of the crates.io API's crate resources.
pub const CRATE_API_URL: &'static str = "https://crates.io/api/v1/crates/";

/// Where a crate's download count sits in its payload.
pub const CRATE_DOWNLOADS: &'static str = "/crate/downloads";

/// Where a version's download count sits in its payload.
pub const VERSION_DOWNLOADS: &'static str = "/version/downloads";

/// Where a crate's newest version sits in its payload.
pub const CRATE_MAX_VERSION: &'static str = "/crate/max_version";

/// The badge paths of this family, below its mount point.
pub fn routes() -> (r: Vec<&'static str>)
    ensures
        r@ == seq!["/downloads/<crate_name>", "/downloads/<crate_name>/<version>", "/version/<crate_name>"],
{
    let mut r = Vec::new();
    r.push("/downloads/<crate_name>");
    r.push("/downloads/<crate_name>/<version>");
    r.push("/version/<crate_name>");
    r
}

/// The API resource of crate `name`, joined to the base with a `/`.
pub fn crate_url(name: &str) -> (r: String)
    ensures
        r@ == CRATE_API_URL@ + "/"@ + name@,
{
    let mut r = String::from_str(CRATE_API_URL);
    r.append("/");
    r.append(name);
    r
}

/// The API resource of version `version` of crate `name`.
pub fn crate_version_url(name: &str, version: &str) -> (r: String)
    ensures
        r@ == CRATE_API_URL@ + "/"@ + name@ + "/"@ + version@,
{
    let mut r = crate_url(name);
    r.append("/");
    r.append(version);
    r
}

/// The scield of download counts.
pub fn downloads_scield() -> (r: TextScield)
    ensures
        r.prefix@ == "Downloads"@,
        r.suffix is None,
{
    TextScield { prefix: "Downloads", suffix: None }
}

/// The scield of version numbers.
pub fn version_scield() -> (r: TextScield)
    ensures
        r.prefix@ == "Version"@,
        r.suffix is None,
{
    TextScield { prefix: "Version", suffix: None }
}

/// The download-count badge of the crate that `crate_name` names, from the
/// payload of its `crate_url` (`None` where the fetch failed).
pub fn crate_downloads(payload: &Option<Value>, crate_name: ScieldRequest) -> (r: Scield<
    Option<i64>,
    TextScield,
>)
    ensures
        r.scield.prefix@ == "Downloads"@,
        r.scield.suffix is None,
        r.value == int_at(*payload, CRATE_DOWNLOADS@),
        r.filetype == crate_name.filetype,
{
    Scield {
        scield: downloads_scield(),
        value: int_field(payload, CRATE_DOWNLOADS),
        filetype: crate_name.filetype,
    }
}

/// The download-count badge of the crate version that `version` names, from
/// the payload of its `crate_version_url`.
pub fn crate_version_downloads(payload: &Option<Value>, version: ScieldRequest) -> (r: Scield<
    Option<i64>,
    TextScield,
>)
    ensures
        r.scield.prefix@ == "Downloads"@,
        r.scield.suffix is None,
        r.value == int_at(*payload, VERSION_DOWNLOADS@),
        r.filetype == version.filetype,
{
    Scield {
        scield: downloads_scield(),
        value: int_field(payload, VERSION_DOWNLOADS),
        filetype: version.filetype,
    }
}

/// The newest-version badge of the crate that `crate_name` names, from the
/// payload of its `crate_url`.
pub fn crate_version(payload: &Option<Value>, crate_name: ScieldRequest) -> (r: Scield<
    Option<String>,
    TextScield,
>)
    ensures
        r.scield.prefix@ == "Version"@,
        r.scield.suffix is None,
        match r.value {
            Some(v) => str_at(*payload, CRATE_MAX_VERSION@) == Some(v@),
            None => str_at(*payload, CRATE_MAX_VERSION@) is None,
        },
        r.filetype == crate_name.filetype,
{
    Scield {
        scield: version_scield(),
        value: str_field(payload, CRATE_MAX_VERSION),
        filetype: crate_name.filetype,
    }
}

} // verus!
