//! Badges naming a software licence.

use vstd::prelude::*;
use crate::scieldas::{Scield, ScieldRequest, StateScield};
use crate::table::StateTable;

verus! {

/// The badge paths of this family, below its mount point.
pub fn routes() -> (r: Vec<&'static str>)
    ensures
        r@ == seq!["/<license>"],
{
    let mut r = Vec::new();
    r.push("/<license>");
    r
}

/// The licences known, by the identifier used in requests (matched exactly,
/// with case).
pub fn licence_table() -> (t: StateTable)
    ensures
        t@ == map!["mit"@ => "MIT"@, "apache"@ => "Apache 2"@, "gpl"@ => "GPL 3"@],
{
    let mut t = StateTable::new();
    t.insert("mit", "MIT");
    t.insert("apache", "Apache 2");
    t.insert("gpl", "GPL 3");
    t
}

/// The badge of the licence that `request` names.
pub fn license(request: ScieldRequest) -> (r: Scield<String, StateScield>)
    ensures
        r.scield.prefix is None,
        r.scield.suffix is None,
        r.scield.states@ == map!["mit"@ => "MIT"@, "apache"@ => "Apache 2"@, "gpl"@ => "GPL 3"@],
        r.value@ == request.body@,
        r.filetype == request.filetype,
{
    Scield {
        scield: StateScield { prefix: None, suffix: None, states: licence_table() },
        value: request.body,
        filetype: request.filetype,
    }
}

} // verus!
