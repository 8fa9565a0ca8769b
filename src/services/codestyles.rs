//! Badges naming a code formatter.

use vstd::prelude::*;
use crate::scieldas::{Scield, ScieldRequest, StateScield};
use crate::table::StateTable;
use crate::text::{lower_of, to_lowercase};

verus! {

/// The badge paths of this family, below its mount point.
pub fn routes() -> (r: Vec<&'static str>)
    ensures
        r@ == seq!["/python/<codestyle>"],
{
    let mut r = Vec::new();
    r.push("/python/<codestyle>");
    r
}

/// The Python formatters known, by their lower-case name.
pub fn python_style_table() -> (t: StateTable)
    ensures
        t@ == map!["black"@ => "Black"@, "yapf"@ => "YAPF"@, "autopep8"@ => "AutoPEP8"@],
{
    let mut t = StateTable::new();
    t.insert("black", "Black");
    t.insert("yapf", "YAPF");
    t.insert("autopep8", "AutoPEP8");
    t
}

/// The badge of the Python formatter that `codestyle` names, in any case:
/// the name is lower-cased before it is looked up.
pub fn python_style(codestyle: ScieldRequest) -> (r: Scield<String, StateScield>)
    ensures
        r.scield.prefix == Some("Style"),
        r.scield.suffix is None,
        r.scield.states@ == map!["black"@ => "Black"@, "yapf"@ => "YAPF"@, "autopep8"@ => "AutoPEP8"@],
        r.value@ == lower_of(codestyle.body@),
        r.filetype == codestyle.filetype,
{
    Scield {
        scield: StateScield { prefix: Some("Style"), suffix: None, states: python_style_table() },
        value: to_lowercase(codestyle.body.as_str()),
        filetype: codestyle.filetype,
    }
}

} // verus!
