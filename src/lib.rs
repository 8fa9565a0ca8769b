//! Scieldas: small status badges ("scields") such as download counts,
//! licence names or build states, served as plain text, SVG or PNG.
//!
//! A request segment such as `serde.png` is split into an identifier and a
//! representation; a scield turns the raw value found for the identifier
//! into the text on the badge; the text is laid out as an SVG document of
//! fixed geometry; and that document is rasterised to PNG through resvg.
//! Upstream payloads and rendered images are kept in bounded caches.

pub mod cache;
pub mod json;
pub mod lru;
pub mod number;
pub mod raster;
pub mod scieldas;
pub mod services;
pub mod shields;
pub mod table;
pub mod text;
pub mod vector;

pub use cache::{PayloadCache, RasterCache, CACHE_CAPACITY, PAYLOAD_TTL_SECS};
pub use number::{decimal_string, readable_number};
pub use raster::{to_raster, RenderFailure};
pub use scieldas::{
    ContentType, FiletypeSet, RenderableScield, RenderedOutput, Scield, ScieldRequest, ScieldRequestError,
    StateScield, SupportedFiletype, TextScield,
};
pub use shields::{
    RenderableShield, Shield, ShieldRequest, ShieldRequestError, StateShield, TextShield,
};
pub use table::StateTable;
pub use vector::{compose_vector, to_vector};

use vstd::prelude::*;

verus! {

/// The body served at the root path.
pub fn index() -> (r: &'static str)
    ensures
        r@ == "Scieldas."@,
{
    "Scieldas."
}

/// The body served at the health-check path.
pub fn health() -> (r: &'static str)
    ensures
        r@ == "OK"@,
{
    "OK"
}

} // verus!
