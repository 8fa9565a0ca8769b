use vstd::prelude::*;
use vstd::string::*;
use crate::number::{readable, readable_number};
use crate::table::StateTable;
use crate::text::same_text;
use crate::cache::RasterCache;
use crate::raster::{png_signed, to_raster, RenderFailure};
use crate::vector::{to_vector, vector_doc, SCIELD_FILL};
use usvg::Options;
use vstd::utf8::encode_utf8;

verus! {

/// The representations a scield can be served in.
#[derive(Clone, Copy, Debug, PartialEq, Eq, Structural)]
pub enum SupportedFiletype {
    Png,
    Svg,
    Txt,
}

/// A parsed request segment: the identifier and the representation asked for.
pub struct ScieldRequest {
    pub body: String,
    pub filetype: SupportedFiletype,
}

/// Why a request segment was refused.
#[derive(Clone, Copy, Debug, PartialEq, Eq, Structural)]
pub enum ScieldRequestError {
    InvalidBody,
    InvalidFiletype,
}

/// The representation that a four-character extension (dot included) names.
pub open spec fn filetype_of(ext: Seq<char>) -> Option<SupportedFiletype> {
    if ext == seq!['.', 'p', 'n', 'g'] {
        Some(SupportedFiletype::Png)
    } else if ext == seq!['.', 's', 'v', 'g'] {
        Some(SupportedFiletype::Svg)
    } else if ext == seq!['.', 't', 'x', 't'] {
        Some(SupportedFiletype::Txt)
    } else {
        None
    }
}

/// A segment split into its stem and the representation its final extension
/// names; the segment must not be empty, its extension must be recognised,
/// and the stem before it must not be empty.
pub open spec fn split_request(s: Seq<char>) -> Result<
    (Seq<char>, SupportedFiletype),
    ScieldRequestError,
> {
    split_request_among(s, FiletypeSet { png: true, svg: true, txt: true })
}

/// The representations a badge family serves.
#[derive(Clone, Copy, Debug, PartialEq, Eq, Structural)]
pub struct FiletypeSet {
    pub png: bool,
    pub svg: bool,
    pub txt: bool,
}

impl FiletypeSet {
    pub open spec fn has(&self, f: SupportedFiletype) -> bool {
        match f {
            SupportedFiletype::Png => self.png,
            SupportedFiletype::Svg => self.svg,
            SupportedFiletype::Txt => self.txt,
        }
    }

    /// Every representation.
    pub fn all() -> (r: FiletypeSet)
        ensures
            r.png && r.svg && r.txt,
    {
        FiletypeSet { png: true, svg: true, txt: true }
    }

    /// Whether `f` is among the representations served.
    pub fn contains(&self, f: SupportedFiletype) -> (r: bool)
        ensures
            r == self.has(f),
    {
        match f {
            SupportedFiletype::Png => self.png,
            SupportedFiletype::Svg => self.svg,
            SupportedFiletype::Txt => self.txt,
        }
    }
}

/// A segment split into its stem and the representation its final extension
/// names, for a family that serves the representations of `accepted`: the
/// segment must not be empty, its extension must be recognised and among
/// them, and the stem before it must not be empty.
pub open spec fn split_request_among(s: Seq<char>, accepted: FiletypeSet) -> Result<
    (Seq<char>, SupportedFiletype),
    ScieldRequestError,
> {
    if s.len() == 0 {
        Err(ScieldRequestError::InvalidBody)
    } else if s.len() < 4 {
        Err(ScieldRequestError::InvalidFiletype)
    } else {
        match filetype_of(s.subrange(s.len() - 4, s.len() as int)) {
            None => Err(ScieldRequestError::InvalidFiletype),
            Some(f) => if !accepted.has(f) {
                Err(ScieldRequestError::InvalidFiletype)
            } else if s.len() == 4 {
                Err(ScieldRequestError::InvalidBody)
            } else {
                Ok((s.subrange(0, s.len() - 4), f))
            },
        }
    }
}

/// Whether `r` is what `split_request_among` gives for the segment `s`.
pub open spec fn parsed_among(
    s: Seq<char>,
    accepted: FiletypeSet,
    r: Result<ScieldRequest, ScieldRequestError>,
) -> bool {
    match split_request_among(s, accepted) {
        Ok((body, f)) => r is Ok && r->Ok_0.body@ == body && r->Ok_0.filetype == f,
        Err(e) => r == Err::<ScieldRequest, ScieldRequestError>(e),
    }
}

/// Whether `r` is what `split_request` gives for the segment `s`.
pub open spec fn parsed_as(s: Seq<char>, r: Result<ScieldRequest, ScieldRequestError>) -> bool {
    match split_request(s) {
        Ok((body, f)) => r is Ok && r->Ok_0.body@ == body && r->Ok_0.filetype == f,
        Err(e) => r == Err::<ScieldRequest, ScieldRequestError>(e),
    }
}

/// The representation named by the extension `ext`, if any.
fn recognise(ext: &str) -> (r: Option<SupportedFiletype>)
    ensures
        r == filetype_of(ext@),
{
    proof {
        reveal_strlit(".png");
        reveal_strlit(".svg");
        reveal_strlit(".txt");
        assert(".png"@ =~= seq!['.', 'p', 'n', 'g']);
        assert(".svg"@ =~= seq!['.', 's', 'v', 'g']);
        assert(".txt"@ =~= seq!['.', 't', 'x', 't']);
    }
    if same_text(ext, ".png") {
        Some(SupportedFiletype::Png)
    } else if same_text(ext, ".svg") {
        Some(SupportedFiletype::Svg)
    } else if same_text(ext, ".txt") {
        Some(SupportedFiletype::Txt)
    } else {
        None
    }
}

impl ScieldRequest {
    /// Splits a path segment such as `name.png` into its identifier and the
    /// representation its final extension asks for.
    pub fn from_param(param: &str) -> (r: Result<ScieldRequest, ScieldRequestError>)
        ensures
            parsed_as(param@, r),
    {
        ScieldRequest::from_param_among(param, FiletypeSet::all())
    }

    /// As `from_param`, for a family that serves only the representations
    /// of `accepted`.
    pub fn from_param_among(param: &str, accepted: FiletypeSet) -> (r: Result<
        ScieldRequest,
        ScieldRequestError,
    >)
        ensures
            parsed_among(param@, accepted, r),
    {
        let n = param.unicode_len();
        if n == 0 {
            return Err(ScieldRequestError::InvalidBody);
        }
        if n < 4 {
            return Err(ScieldRequestError::InvalidFiletype);
        }
        let ext = param.substring_char(n - 4, n);
        match recognise(ext) {
            None => Err(ScieldRequestError::InvalidFiletype),
            Some(filetype) => {
                if !accepted.contains(filetype) {
                    Err(ScieldRequestError::InvalidFiletype)
                } else if n == 4 {
                    Err(ScieldRequestError::InvalidBody)
                } else {
                    let body = String::from_str(param.substring_char(0, n - 4));
                    Ok(ScieldRequest { body, filetype })
                }
            },
        }
    }
}

/// A kind of scield: turns a raw value into the text shown on the badge.
pub trait RenderableScield<T> {
    /// The text shown for `value`.
    spec fn rendered(&self, value: T) -> Seq<char>;

    fn render(&self, value: &T) -> (r: String)
        ensures
            r@ == self.rendered(*value),
    ;
}

/// The text shown where no value could be had.
pub const FALLBACK: &'static str = "N/A";

pub open spec fn fallback() -> Seq<char> {
    seq!['N', '/', 'A']
}

pub open spec fn opt_view(o: Option<&'static str>) -> Option<Seq<char>> {
    match o {
        Some(s) => Some(s@),
        None => None,
    }
}

/// `value` behind "`prefix` :: " and followed by " `suffix`", each where given.
pub open spec fn affixed(prefix: Option<Seq<char>>, value: Seq<char>, suffix: Option<Seq<char>>) -> Seq<
    char,
> {
    let head = match prefix {
        Some(p) => p + seq![' ', ':', ':', ' '],
        None => Seq::<char>::empty(),
    };
    let tail = match suffix {
        Some(s) => seq![' '] + s,
        None => Seq::<char>::empty(),
    };
    head + value + tail
}

/// Writes `value` between the optional prefix and suffix.
pub fn affix(prefix: Option<&str>, value: &str, suffix: Option<&str>) -> (r: String)
    ensures
        r@ == affixed(
            match prefix {
                Some(p) => Some(p@),
                None => None,
            },
            value@,
            match suffix {
                Some(s) => Some(s@),
                None => None,
            },
        ),
{
    proof {
        reveal_strlit(" :: ");
        reveal_strlit(" ");
    }
    let mut r = String::new();
    match prefix {
        Some(p) => {
            r.append(p);
            r.append(" :: ");
        },
        None => {},
    }
    r.append(value);
    match suffix {
        Some(s) => {
            r.append(" ");
            r.append(s);
        },
        None => {},
    }
    assert(r@ =~= affixed(
        match prefix {
            Some(p) => Some(p@),
            None => None,
        },
        value@,
        match suffix {
            Some(s) => Some(s@),
            None => None,
        },
    ));
    r
}

fn fallback_string() -> (r: String)
    ensures
        r@ == fallback(),
{
    proof {
        reveal_strlit("N/A");
    }
    String::from_str(FALLBACK)
}

/// A scield that shows its value as it is, after a fixed prefix.
pub struct TextScield {
    pub prefix: &'static str,
    pub suffix: Option<&'static str>,
}

impl TextScield {
    pub open spec fn shows(&self, value: Seq<char>) -> Seq<char> {
        affixed(Some(self.prefix@), value, opt_view(self.suffix))
    }
}

impl RenderableScield<String> for TextScield {
    open spec fn rendered(&self, value: String) -> Seq<char> {
        self.shows(value@)
    }

    fn render(&self, value: &String) -> (r: String) {
        affix(Some(self.prefix), value.as_str(), self.suffix)
    }
}

impl RenderableScield<i64> for TextScield {
    open spec fn rendered(&self, value: i64) -> Seq<char> {
        self.shows(readable(value as int))
    }

    fn render(&self, value: &i64) -> (r: String) {
        let shown = readable_number(*value);
        affix(Some(self.prefix), shown.as_str(), self.suffix)
    }
}

impl RenderableScield<Option<String>> for TextScield {
    open spec fn rendered(&self, value: Option<String>) -> Seq<char> {
        match value {
            Some(s) => self.shows(s@),
            None => self.shows(fallback()),
        }
    }

    fn render(&self, value: &Option<String>) -> (r: String) {
        match value {
            Some(s) => affix(Some(self.prefix), s.as_str(), self.suffix),
            None => {
                let shown = fallback_string();
                affix(Some(self.prefix), shown.as_str(), self.suffix)
            },
        }
    }
}

impl RenderableScield<Option<i64>> for TextScield {
    open spec fn rendered(&self, value: Option<i64>) -> Seq<char> {
        match value {
            Some(n) => self.shows(readable(n as int)),
            None => self.shows(fallback()),
        }
    }

    fn render(&self, value: &Option<i64>) -> (r: String) {
        let shown = match value {
            Some(n) => readable_number(*n),
            None => fallback_string(),
        };
        affix(Some(self.prefix), shown.as_str(), self.suffix)
    }
}

/// A scield that shows the label its table gives the value, or "N/A" for a
/// value the table does not know.
pub struct StateScield {
    pub prefix: Option<&'static str>,
    pub suffix: Option<&'static str>,
    pub states: StateTable,
}

impl StateScield {
    /// The label for the raw value `value`.
    pub open spec fn label(&self, value: Seq<char>) -> Seq<char> {
        if self.states@.contains_key(value) {
            self.states@[value]
        } else {
            fallback()
        }
    }

    pub open spec fn shows(&self, value: Seq<char>) -> Seq<char> {
        affixed(opt_view(self.prefix), self.label(value), opt_view(self.suffix))
    }
}

impl RenderableScield<String> for StateScield {
    open spec fn rendered(&self, value: String) -> Seq<char> {
        self.shows(value@)
    }

    fn render(&self, value: &String) -> (r: String) {
        let shown = match self.states.get(value) {
            Some(label) => label,
            None => fallback_string(),
        };
        affix(self.prefix, shown.as_str(), self.suffix)
    }
}

/// A badge: a kind of scield, the raw value it shows, and the representation
/// it is served in.
pub struct Scield<A, T: RenderableScield<A>> {
    pub scield: T,
    pub value: A,
    pub filetype: SupportedFiletype,
}

impl<A, T: RenderableScield<A>> Scield<A, T> {
    /// The text on the badge.
    pub open spec fn text(&self) -> Seq<char> {
        self.scield.rendered(self.value)
    }

    /// The badge's SVG document.
    pub fn to_svg(&self) -> (r: String)
        ensures
            r@ == vector_doc(self.text(), SCIELD_FILL@),
    {
        let value = self.scield.render(&self.value);
        to_vector(value.as_str())
    }

    /// The badge's PNG image: its SVG document rendered with the fonts of
    /// `fonts`, which comes back as a PNG file on success.
    pub fn to_png(&self, fonts: &Options) -> (r: Result<Vec<u8>, RenderFailure>)
        ensures
            r is Ok ==> png_signed(r->Ok_0@),
    {
        let svg = self.to_svg();
        to_raster(svg.as_str(), fonts)
    }
}

/// The media type a response is served with.
#[derive(Clone, Copy, Debug, PartialEq, Eq, Structural)]
pub enum ContentType {
    Plain,
    Svg,
    Png,
}

impl ContentType {
    pub open spec fn spec_mime(&self) -> Seq<char> {
        match self {
            ContentType::Plain => "text/plain"@,
            ContentType::Svg => "image/svg+xml"@,
            ContentType::Png => "image/png"@,
        }
    }

    /// The media type's name, as sent in `Content-Type`.
    pub fn mime(&self) -> (r: &'static str)
        ensures
            r@ == self.spec_mime(),
    {
        match self {
            ContentType::Plain => "text/plain",
            ContentType::Svg => "image/svg+xml",
            ContentType::Png => "image/png",
        }
    }
}

/// A response: its content type and body.
pub struct RenderedOutput {
    pub content_type: ContentType,
    pub body: Vec<u8>,
}

/// Whether `r` is the response for a badge showing `text` in representation
/// `f` with background `fill`, with the image cache going from `before` to
/// `after`: the text itself, its SVG document, or that document's PNG image
/// through the cache.
pub open spec fn responded(
    text: Seq<char>,
    fill: Seq<char>,
    f: SupportedFiletype,
    before: RasterCache,
    after: RasterCache,
    r: Result<RenderedOutput, RenderFailure>,
) -> bool {
    match f {
        SupportedFiletype::Txt => {
            &&& r is Ok
            &&& r->Ok_0.content_type == ContentType::Plain
            &&& r->Ok_0.body@ == encode_utf8(text)
            &&& after == before
        },
        SupportedFiletype::Svg => {
            &&& r is Ok
            &&& r->Ok_0.content_type == ContentType::Svg
            &&& r->Ok_0.body@ == encode_utf8(vector_doc(text, fill))
            &&& after == before
        },
        SupportedFiletype::Png => match r {
            Ok(out) => out.content_type == ContentType::Png && RasterCache::rasterized(
                before,
                after,
                vector_doc(text, fill),
                Ok(out.body),
            ),
            Err(e) => RasterCache::rasterized(before, after, vector_doc(text, fill), Err(e)),
        },
    }
}

/// Serves `svg` as asked by `filetype`; `text` is what the badge shows.
pub fn respond_with(
    text: String,
    svg: String,
    filetype: SupportedFiletype,
    fonts: &Options,
    images: &mut RasterCache,
) -> (r: Result<RenderedOutput, RenderFailure>)
    requires
        old(images).wf(),
    ensures
        final(images).wf(),
        final(images).capacity() == old(images).capacity(),
        filetype == SupportedFiletype::Txt ==> r is Ok && r->Ok_0.content_type
            == ContentType::Plain && r->Ok_0.body@ == encode_utf8(text@) && *final(images)
            == *old(images),
        filetype == SupportedFiletype::Svg ==> r is Ok && r->Ok_0.content_type
            == ContentType::Svg && r->Ok_0.body@ == encode_utf8(svg@) && *final(images)
            == *old(images),
        filetype == SupportedFiletype::Png ==> match r {
            Ok(out) => out.content_type == ContentType::Png && RasterCache::rasterized(
                *old(images),
                *final(images),
                svg@,
                Ok(out.body),
            ),
            Err(e) => RasterCache::rasterized(*old(images), *final(images), svg@, Err(e)),
        },
{
    match filetype {
        SupportedFiletype::Txt => Ok(
            RenderedOutput { content_type: ContentType::Plain, body: text.as_str().as_bytes_vec() },
        ),
        SupportedFiletype::Svg => Ok(
            RenderedOutput { content_type: ContentType::Svg, body: svg.as_str().as_bytes_vec() },
        ),
        SupportedFiletype::Png => match images.rasterize(&svg, fonts) {
            Ok(png) => Ok(RenderedOutput { content_type: ContentType::Png, body: png }),
            Err(e) => Err(e),
        },
    }
}

impl<A, T: RenderableScield<A>> Scield<A, T> {
    /// The response for this badge: its text, its SVG document, or that
    /// document's PNG image, which `images` keeps by document.
    pub fn respond_to(&self, fonts: &Options, images: &mut RasterCache) -> (r: Result<
        RenderedOutput,
        RenderFailure,
    >)
        requires
            old(images).wf(),
        ensures
            final(images).wf(),
            final(images).capacity() == old(images).capacity(),
            responded(self.text(), SCIELD_FILL@, self.filetype, *old(images), *final(images), r),
    {
        let text = self.scield.render(&self.value);
        let svg = to_vector(text.as_str());
        respond_with(text, svg, self.filetype, fonts, images)
    }
}

} // verus!
