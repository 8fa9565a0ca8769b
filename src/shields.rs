//! The first generation of badges: shields, which show a string value.

use vstd::prelude::*;
use vstd::string::*;
use crate::cache::RasterCache;
use crate::raster::{png_signed, to_raster, RenderFailure};
use crate::scieldas::{
    affix, affixed, fallback, opt_view, respond_with, responded, RenderedOutput, ScieldRequest,
    ScieldRequestError, split_request, FALLBACK,
};
use crate::table::StateTable;
use crate::vector::{compose_vector, vector_doc};
use usvg::Options;

pub use crate::scieldas::SupportedFiletype;

verus! {

/// Background colour of shields.
pub const SHIELD_FILL: &'static str = "#2D2D2D";

/// A kind of shield: turns a raw string into the text shown on the badge.
pub trait RenderableShield {
    /// The text shown for `value`.
    spec fn rendered(&self, value: Seq<char>) -> Seq<char>;

    fn render(&self, value: &str) -> (r: String)
        ensures
            r@ == self.rendered(value@),
    ;
}

/// A shield that shows its value as it is, after a fixed prefix.
pub struct TextShield {
    pub prefix: &'static str,
    pub suffix: Option<&'static str>,
}

impl RenderableShield for TextShield {
    open spec fn rendered(&self, value: Seq<char>) -> Seq<char> {
        affixed(Some(self.prefix@), value, opt_view(self.suffix))
    }

    fn render(&self, value: &str) -> (r: String) {
        affix(Some(self.prefix), value, self.suffix)
    }
}

/// A shield that shows the label its table gives the value, or "N/A" for a
/// value the table does not know.
pub struct StateShield {
    pub prefix: Option<&'static str>,
    pub suffix: Option<&'static str>,
    pub states: StateTable,
}

impl RenderableShield for StateShield {
    open spec fn rendered(&self, value: Seq<char>) -> Seq<char> {
        affixed(
            opt_view(self.prefix),
            if self.states@.contains_key(value) {
                self.states@[value]
            } else {
                fallback()
            },
            opt_view(self.suffix),
        )
    }

    fn render(&self, value: &str) -> (r: String) {
        proof {
            reveal_strlit("N/A");
        }
        let key = String::from_str(value);
        let shown = match self.states.get(&key) {
            Some(label) => label,
            None => String::from_str(FALLBACK),
        };
        affix(self.prefix, shown.as_str(), self.suffix)
    }
}

/// A badge with a string value, the kind of shield that shows it, and the
/// representation it is served in.
pub struct Shield<T: RenderableShield> {
    pub shield: T,
    pub value: String,
    pub filetype: SupportedFiletype,
}

impl<T: RenderableShield> Shield<T> {
    /// The text on the badge.
    pub open spec fn text(&self) -> Seq<char> {
        self.shield.rendered(self.value@)
    }

    /// The badge's SVG document.
    pub fn to_svg(&self) -> (r: String)
        ensures
            r@ == vector_doc(self.text(), SHIELD_FILL@),
    {
        let value = self.shield.render(self.value.as_str());
        compose_vector(value.as_str(), SHIELD_FILL)
    }

    /// The badge's PNG image: its SVG document rendered with the fonts of
    /// `fonts`, which comes back as a PNG file on success.
    pub fn to_png(&self, fonts: &Options) -> (r: Result<Vec<u8>, RenderFailure>)
        ensures
            r is Ok ==> png_signed(r->Ok_0@),
    {
        let svg = self.to_svg();
        to_raster(svg.as_str(), fonts)
    }

    /// The response for this badge: its text, its SVG document, or that
    /// document's PNG image, which `images` keeps by document.
    pub fn respond_to(&self, fonts: &Options, images: &mut RasterCache) -> (r: Result<
        RenderedOutput,
        RenderFailure,
    >)
        requires
            old(images).wf(),
        ensures
            final(images).wf(),
            final(images).capacity() == old(images).capacity(),
            responded(self.text(), SHIELD_FILL@, self.filetype, *old(images), *final(images), r),
    {
        let text = self.shield.render(self.value.as_str());
        let svg = compose_vector(text.as_str(), SHIELD_FILL);
        respond_with(text, svg, self.filetype, fonts, images)
    }
}

/// A parsed request segment: the identifier and the representation asked for.
pub struct ShieldRequest {
    pub body: String,
    pub filetype: SupportedFiletype,
}

/// Why a request segment was refused.
#[derive(Clone, Copy, Debug, PartialEq, Eq, Structural)]
pub enum ShieldRequestError {
    InvalidBody,
    InvalidFiletype,
}

impl ShieldRequest {
    /// Splits a path segment such as `name.png` into its identifier and the
    /// representation its final extension asks for.
    pub fn from_param(param: &str) -> (r: Result<ShieldRequest, ShieldRequestError>)
        ensures
            match split_request(param@) {
                Ok((body, f)) => r is Ok && r->Ok_0.body@ == body && r->Ok_0.filetype == f,
                Err(ScieldRequestError::InvalidBody) => r == Err::<
                    ShieldRequest,
                    ShieldRequestError,
                >(ShieldRequestError::InvalidBody),
                Err(ScieldRequestError::InvalidFiletype) => r == Err::<
                    ShieldRequest,
                    ShieldRequestError,
                >(ShieldRequestError::InvalidFiletype),
            },
    {
        match ScieldRequest::from_param(param) {
            Ok(req) => Ok(ShieldRequest { body: req.body, filetype: req.filetype }),
            Err(ScieldRequestError::InvalidBody) => Err(ShieldRequestError::InvalidBody),
            Err(ScieldRequestError::InvalidFiletype) => Err(ShieldRequestError::InvalidFiletype),
        }
    }
}

} // verus!
