//! The bitmap image stroke: an embedded raster image, placed on the canvas by
//! its bounds and rendered through a markup template.

use vstd::prelude::*;
use crate::codec::{base64_bytes, base64_decode, base64_encode, base64_len, base64_text};
use crate::geometry::{Aabb, BoxModel, Vector2, VectorModel};
use crate::markup::{
    add_xml_header, finish_render, wrapped_svg, xml_header, RenderError, SyntaxFault,
};
use crate::plain::{is_plain, is_plain_template};
use crate::template::{
    context_entries, insert_text, new_context, render_one_off, template_rendering, text_of_utf8,
    Entries,
};
use crate::units::{decimal_text, format_decimal, UNIT};

verus! {

/// Default width of a placed image, in sub-units.
pub const SIZE_X_DEFAULT: i64 = 500000;

/// Default height of a placed image, in sub-units.
pub const SIZE_Y_DEFAULT: i64 = 500000;

/// Default horizontal distance of a placed image from the origin, in
/// sub-units.
pub const OFFSET_X_DEFAULT: i64 = 28000;

/// Default vertical distance of a placed image from the origin, in sub-units.
pub const OFFSET_Y_DEFAULT: i64 = 28000;

/// How decoding an image failed, as whoever decoded it reports.
#[derive(Clone, Copy, Debug, PartialEq, Eq, Structural)]
pub enum ImageFailure {
    /// The data does not conform to the format it was recognised as.
    Decoding,
    /// An image could not be encoded.
    Encoding,
    /// An argument was not acceptable.
    Parameter,
    /// More resources would have been needed than are allowed.
    Limits,
    /// No format was recognised, or the format or one of its features is
    /// not supported.
    Unsupported,
    /// The underlying reader failed.
    Io,
}

/// Why no stroke could be made from image bytes.
#[derive(Clone, Copy, Debug, PartialEq, Eq, Structural)]
pub enum DecodeError {
    /// The bytes are in no container format that is known and supported.
    UnrecognizedFormat,
    /// The format was recognised, but the bytes do not hold a sound image of
    /// it, or one without extent.
    CorruptData,
}

/// A raster image on the canvas. `N` is the render node of the host's
/// rendering surface; the stroke only keeps it.
#[derive(Clone, Debug)]
pub struct BitmapImage<N> {
    /// The encoded image, as it was imported, in base64.
    pub data_base64: String,
    /// Where the image lies in document space, and how large.
    pub bounds: Aabb,
    /// The pixel dimensions of the decoded image, in sub-units.
    pub intrinsic_size: Vector2,
    /// The render node made last, if any. It is derived from the other
    /// fields and a scale factor, and is not part of what is persisted.
    pub render_cache: Option<N>,
}

/// The mathematical model of a `BitmapImage`.
pub struct BitmapImageModel<N> {
    pub payload: Seq<char>,
    pub bounds: BoxModel,
    pub intrinsic_size: VectorModel,
    pub render_cache: Option<N>,
}

impl<N> View for BitmapImage<N> {
    type V = BitmapImageModel<N>;

    open spec fn view(&self) -> BitmapImageModel<N> {
        BitmapImageModel {
            payload: self.data_base64@,
            bounds: self.bounds@,
            intrinsic_size: self.intrinsic_size@,
            render_cache: self.render_cache,
        }
    }
}

impl<N> BitmapImageModel<N> {
    /// The image has an extent, and its bounds are not inverted.
    pub open spec fn is_valid(self) -> bool {
        self.intrinsic_size.x > 0 && self.intrinsic_size.y > 0 && self.bounds.is_valid()
    }

    /// The coordinate system of the image itself: from the origin to its
    /// intrinsic size.
    pub open spec fn intrinsic_bounds(self) -> BoxModel {
        BoxModel { mins: VectorModel { x: 0, y: 0 }, maxs: self.intrinsic_size }
    }

    /// The variables that the markup template of the stroke is rendered
    /// with. The template draws the image at its intrinsic size, from the
    /// origin; the placement on the canvas is added around it.
    pub open spec fn template_entries(self) -> Entries {
        Entries::empty().insert("x"@, decimal_text(0)).insert("y"@, decimal_text(0)).insert(
            "width"@,
            decimal_text(self.intrinsic_size.x),
        ).insert("height"@, decimal_text(self.intrinsic_size.y)).insert("data_base64"@, self.payload)
    }
}

/// What is handed to the host to be rasterised.
#[derive(Clone, Debug)]
pub struct RenderRequest {
    /// The markup, as a document of its own.
    pub svg: String,
    /// The bounds, in document space, that the node is to cover.
    pub bounds: Aabb,
    /// The scale factor between document space and device space.
    pub scale: i64,
}

/// Whether `r` is the outcome of rendering with `template` and the variables
/// `entries`: the markup, or the error that the template calls for.
///
/// * Without template bytes the template is missing, for the reason given.
/// * Bytes that are not valid UTF-8 are an encoding error.
/// * A template that is not plain is refused as such.
/// * A plain template is rendered by the template engine. Where it renders,
///   the markup is `header`, then the rendered text wrapped with `placement`
///   and `viewbox`; where it does not, the template is rejected.
pub open spec fn rendered(
    r: Result<String, RenderError>,
    template: Result<&[u8], String>,
    entries: Entries,
    placement: BoxModel,
    viewbox: BoxModel,
    header: Seq<char>,
) -> bool {
    match template {
        Err(cause) => r matches Err(RenderError::TemplateMissing(carried)) && carried == cause,
        Ok(bytes) => if !vstd::utf8::valid_utf8(bytes@) {
            r matches Err(RenderError::Encoding)
        } else if !is_plain(bytes@) {
            r matches Err(RenderError::TemplateSyntax(SyntaxFault::NotPlain))
        } else {
            match template_rendering(vstd::utf8::decode_utf8(bytes@), entries) {
                Some(body) => r matches Ok(svg) && svg@ == header + wrapped_svg(body, placement, viewbox),
                None => r matches Err(RenderError::TemplateSyntax(SyntaxFault::Rejected(_))),
            }
        },
    }
}

/// The markup of a render request, if there is one.
pub open spec fn svg_of(r: Result<RenderRequest, RenderError>) -> Result<String, RenderError> {
    match r {
        Ok(request) => Ok(request.svg),
        Err(e) => Err(e),
    }
}

/// The error that a failure to decode is reported as.
pub open spec fn decode_error(failure: ImageFailure) -> DecodeError {
    match failure {
        ImageFailure::Unsupported => DecodeError::UnrecognizedFormat,
        _ => DecodeError::CorruptData,
    }
}

/// The extent, in sub-units, of a number of pixels.
pub open spec fn pixel_extent(pixels: u32) -> int {
    pixels * UNIT
}

/// The stroke that image bytes give when placed with their top-left corner at
/// `pos`, given what decoding them gave: the dimensions of the picture in
/// pixels, width first, or the failure. Where there is no stroke, the error:
/// a failure is reported as its error, an image without extent as corrupt
/// data.
pub open spec fn imported<N>(
    data: Seq<u8>,
    decoded: Result<(u32, u32), ImageFailure>,
    pos: VectorModel,
) -> Result<BitmapImageModel<N>, DecodeError> {
    match decoded {
        Err(failure) => Err(decode_error(failure)),
        Ok((width, height)) => if width == 0 || height == 0 {
            Err(DecodeError::CorruptData)
        } else {
            let size = VectorModel { x: pixel_extent(width), y: pixel_extent(height) };
            Ok(
                BitmapImageModel {
                    payload: base64_text(data),
                    bounds: BoxModel { mins: pos, maxs: pos.plus(size) },
                    intrinsic_size: size,
                    render_cache: None,
                },
            )
        },
    }
}

/// Whether the stroke that is to be made, if one is, can be held: its bounds
/// can be represented, and the base64 text of its `len` bytes is no longer
/// than a text can be.
pub open spec fn holdable<N>(stroke: Result<BitmapImageModel<N>, DecodeError>, len: nat) -> bool {
    stroke matches Ok(s) ==> s.bounds.representable() && base64_len(len) <= isize::MAX
}

/// Whether a result holds the stroke, or the error, that a model says.
pub open spec fn agrees<N>(
    r: Result<BitmapImage<N>, DecodeError>,
    model: Result<BitmapImageModel<N>, DecodeError>,
) -> bool {
    match r {
        Ok(stroke) => model == Ok::<BitmapImageModel<N>, DecodeError>(stroke@),
        Err(e) => model == Err::<BitmapImageModel<N>, DecodeError>(e),
    }
}

/// An image that decodes and has an extent is imported, however many pixels
/// it has: the stroke is valid, its bounds start at the given position, and
/// its intrinsic size and the extents of its bounds are the pixel dimensions
/// of the picture.
pub proof fn lemma_sound_image_is_imported<N>(
    data: Seq<u8>,
    decoded: Result<(u32, u32), ImageFailure>,
    pos: VectorModel,
)
    requires
        decoded matches Ok(dimensions) && dimensions.0 >= 1 && dimensions.1 >= 1,
    ensures
        imported::<N>(data, decoded, pos) matches Ok(stroke) && {
            &&& stroke.is_valid()
            &&& stroke.payload == base64_text(data)
            &&& stroke.bounds.mins == pos
            &&& stroke.bounds.extents() == stroke.intrinsic_size
            &&& decoded matches Ok(dimensions) && stroke.intrinsic_size == (VectorModel {
                x: pixel_extent(dimensions.0),
                y: pixel_extent(dimensions.1),
            })
        },
{
}

/// Bytes that do not decode give no stroke. Where no supported format is
/// found in them the error says so; every other failure counts as corrupt
/// data.
pub proof fn lemma_failed_decoding_gives_no_stroke<N>(
    data: Seq<u8>,
    decoded: Result<(u32, u32), ImageFailure>,
    pos: VectorModel,
)
    ensures
        decoded matches Err(failure) ==> imported::<N>(data, decoded, pos) == Err::<
            BitmapImageModel<N>,
            DecodeError,
        >(decode_error(failure)),
        forall|failure: ImageFailure|
            failure != ImageFailure::Unsupported ==> #[trigger] decode_error(failure)
                == DecodeError::CorruptData,
        decode_error(ImageFailure::Unsupported) == DecodeError::UnrecognizedFormat,
{
}

impl<N> BitmapImage<N> {
    /// Whether the image has an extent and its bounds are not inverted.
    pub fn is_valid(&self) -> (r: bool)
        ensures
            r == self@.is_valid(),
    {
        self.intrinsic_size.x > 0 && self.intrinsic_size.y > 0 && self.bounds.is_valid()
    }

    /// Makes a stroke from encoded image bytes and from what decoding them
    /// gave: the dimensions of the picture in pixels, width first, or the
    /// failure. The dimensions become the intrinsic size; the bounds reach
    /// from `pos` over that size; the bytes themselves are kept, in base64.
    /// An image without extent is refused.
    ///
    /// Where a stroke is made, it must be one that can be held: see
    /// `holdable`. `try_import_from_image_bytes` asks for nothing.
    pub fn import_from_image_bytes(data: &[u8], decoded: Result<(u32, u32), ImageFailure>, pos: Vector2) -> (r:
        Result<Self, DecodeError>)
        requires
            holdable(imported::<N>(data@, decoded, pos@), data@.len()),
        ensures
            agrees(r, imported(data@, decoded, pos@)),
            r matches Ok(stroke) ==> stroke@.is_valid() && base64_bytes(stroke.data_base64@) == Some(data@),
    {
        match decoded {
            Err(ImageFailure::Unsupported) => Err(DecodeError::UnrecognizedFormat),
            Err(_) => Err(DecodeError::CorruptData),
            Ok((width, height)) => {
                if width == 0 || height == 0 {
                    return Err(DecodeError::CorruptData);
                }
                let size = Vector2 { x: width as i64 * UNIT, y: height as i64 * UNIT };
                let bounds = Aabb { mins: pos, maxs: Vector2 { x: pos.x + size.x, y: pos.y + size.y } };
                let data_base64 = base64_encode(data);
                Ok(BitmapImage { data_base64, bounds, intrinsic_size: size, render_cache: None })
            },
        }
    }

    /// Makes a stroke as `import_from_image_bytes` does, where the stroke
    /// that is to be made can be held; `None` where it cannot.
    pub fn try_import_from_image_bytes(
        data: &[u8],
        decoded: Result<(u32, u32), ImageFailure>,
        pos: Vector2,
    ) -> (r: Option<Result<Self, DecodeError>>)
        ensures
            r is Some <==> holdable(imported::<N>(data@, decoded, pos@), data@.len()),
            r matches Some(made) ==> agrees(made, imported(data@, decoded, pos@)),
            r matches Some(Ok(stroke)) ==> stroke@.is_valid() && base64_bytes(stroke.data_base64@) == Some(
                data@,
            ),
    {
        let can_hold = match decoded {
            Ok((width, height)) => {
                let groups: u128 = (data.len() as u128 + 2) / 3;
                let right: i128 = pos.x as i128 + width as i128 * UNIT as i128;
                let bottom: i128 = pos.y as i128 + height as i128 * UNIT as i128;
                width == 0 || height == 0 || (4 * groups <= isize::MAX as u128 && right <= i64::MAX as i128
                    && bottom <= i64::MAX as i128)
            },
            Err(_) => true,
        };
        if can_hold {
            Some(Self::import_from_image_bytes(data, decoded, pos))
        } else {
            None
        }
    }

    /// The current placement.
    pub fn bounds(&self) -> (r: Aabb)
        ensures
            r == self.bounds,
    {
        self.bounds
    }

    /// Shifts the stroke by `offset`, in document space. Its size, its
    /// payload and its render cache stay as they are.
    pub fn translate(&mut self, offset: Vector2)
        requires
            old(self).bounds@.translated(offset@).representable(),
        ensures
            final(self)@ == (BitmapImageModel { bounds: old(self)@.bounds.translated(offset@), ..old(self)@ }),
            final(self)@.bounds.extents() == old(self)@.bounds.extents(),
            final(self)@.is_valid() == old(self)@.is_valid(),
    {
        self.bounds = self.bounds.translate(offset);
    }

    /// Replaces the bounds of the stroke. Nothing is clamped: whoever
    /// computes the new bounds sees to it that they are valid.
    pub fn resize(&mut self, new_bounds: Aabb)
        ensures
            final(self)@ == (BitmapImageModel { bounds: new_bounds@, ..old(self)@ }),
            old(self)@.is_valid() && new_bounds@.is_valid() ==> final(self)@.is_valid(),
    {
        self.bounds = new_bounds;
    }

    /// The image bytes that the stroke was imported from, decoded from the
    /// stored payload; `None` where the payload is not well-formed base64.
    pub fn payload(&self) -> (r: Option<Vec<u8>>)
        ensures
            r is Some <==> base64_bytes(self@.payload) is Some,
            r matches Some(bytes) ==> base64_bytes(self@.payload) == Some(bytes@),
    {
        base64_decode(self.data_base64.as_str())
    }

    /// The variables that the markup template is rendered with.
    pub fn template_context(&self) -> (r: tera::Context)
        ensures
            context_entries(r) == self@.template_entries(),
    {
        let origin = format_decimal(0);
        let width = format_decimal(self.intrinsic_size.x as i128);
        let height = format_decimal(self.intrinsic_size.y as i128);
        let mut context = new_context();
        insert_text(&mut context, "x", origin.as_str());
        insert_text(&mut context, "y", origin.as_str());
        insert_text(&mut context, "width", width.as_str());
        insert_text(&mut context, "height", height.as_str());
        insert_text(&mut context, "data_base64", self.data_base64.as_str());
        context
    }

    /// Renders the stroke as scalable markup. `template` holds the bytes of
    /// the markup template, or, where it could not be found, the reason as
    /// a text. The template must be valid UTF-8 and plain. It is rendered
    /// with the variables of `template_context`, which draw the image at its
    /// intrinsic size; the result is wrapped with the placement, which is the
    /// bounds shifted by `offset`.
    pub fn gen_svg_data(&self, template: Result<&[u8], String>, offset: Vector2) -> (r: Result<
        String,
        RenderError,
    >)
        requires
            self.bounds@.translated(offset@).representable(),
        ensures
            rendered(
                r,
                template,
                self@.template_entries(),
                self@.bounds.translated(offset@),
                self@.intrinsic_bounds(),
                Seq::empty(),
            ),
    {
        let bytes = match template {
            Ok(bytes) => bytes,
            Err(cause) => return Err(RenderError::TemplateMissing(cause)),
        };
        let text = match text_of_utf8(bytes) {
            Some(text) => text,
            None => return Err(RenderError::Encoding),
        };
        if !is_plain_template(bytes) {
            return Err(RenderError::TemplateSyntax(SyntaxFault::NotPlain));
        }
        proof {
            vstd::utf8::encode_utf8_decode_utf8(text@);
        }
        let context = self.template_context();
        let outcome = render_one_off(text, &context);
        let placement = self.bounds.translate(offset);
        let viewbox = Aabb { mins: Vector2 { x: 0, y: 0 }, maxs: self.intrinsic_size };
        let r = finish_render(outcome, placement, viewbox);
        proof {
            if r is Ok {
                assert(r->Ok_0@ =~= Seq::<char>::empty() + r->Ok_0@);
            }
        }
        r
    }

    /// Prepares a render node: the markup of the stroke where it lies, as a
    /// document of its own, with the bounds and the scale factor that the
    /// host is to rasterise it at. `template` is as for `gen_svg_data`.
    pub fn render_request(&self, template: Result<&[u8], String>, scale: i64) -> (r: Result<
        RenderRequest,
        RenderError,
    >)
        ensures
            rendered(
                svg_of(r),
                template,
                self@.template_entries(),
                self@.bounds,
                self@.intrinsic_bounds(),
                xml_header(),
            ),
            r matches Ok(request) ==> request.bounds == self.bounds && request.scale == scale,
    {
        proof {
            assert(self@.bounds.translated((Vector2 { x: 0, y: 0 })@) == self@.bounds);
        }
        match self.gen_svg_data(template, Vector2 { x: 0, y: 0 }) {
            Ok(svg) => {
                let document = add_xml_header(svg.as_str());
                proof {
                    assert(svg@ =~= Seq::<char>::empty() + svg@);
                }
                Ok(RenderRequest { svg: document, bounds: self.bounds, scale })
            },
            Err(e) => Err(e),
        }
    }

    /// Takes in what the host made of a render request. A node replaces the
    /// render cache. A failure, of whatever kind, is handed back, and the
    /// cache stays as it was: a stale node is better than none.
    pub fn update_render_cache<E>(&mut self, outcome: Result<N, E>) -> (r: Result<(), E>)
        ensures
            match outcome {
                Ok(node) => r is Ok && final(self)@ == (BitmapImageModel {
                    render_cache: Some(node),
                    ..old(self)@
                }),
                Err(e) => r == Err::<(), E>(e) && final(self)@ == old(self)@,
            },
    {
        match outcome {
            Ok(node) => {
                self.render_cache = Some(node);
                Ok(())
            },
            Err(e) => Err(e),
        }
    }
}

} // verus!
