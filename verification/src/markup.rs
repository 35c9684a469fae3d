//! Scalable vector markup: the text that places a rendered stroke on the
//! canvas.

use vstd::prelude::*;
use vstd::string::StringExecFns;
use crate::geometry::{Aabb, BoxModel};
use crate::units::{append_decimal, decimal_text};

verus! {

/// What is wrong with a template.
#[derive(Debug)]
pub enum SyntaxFault {
    /// The template is not plain: it holds a tag that is not a placeholder
    /// `{{ name }}`.
    NotPlain,
    /// The template engine rejected the template or the substitution; the
    /// engine's own error is carried along.
    Rejected(tera::Error),
}

/// Why a stroke could not be rendered.
#[derive(Debug)]
pub enum RenderError {
    /// The template could not be found; the text says why.
    TemplateMissing(String),
    /// The template is not valid UTF-8.
    Encoding,
    /// The template cannot be rendered as it is written.
    TemplateSyntax(SyntaxFault),
}

/// The declaration that starts a stand-alone document.
pub open spec fn xml_header() -> Seq<char> {
    "<?xml version=\"1.0\" standalone=\"no\"?>\n"@
}

/// The opening tag of the `svg` element that places markup at `bounds` and
/// maps the coordinates of `viewbox` onto it.
pub open spec fn svg_opening(bounds: BoxModel, viewbox: BoxModel) -> Seq<char> {
    "<svg x=\""@ + decimal_text(bounds.mins.x) + "\" y=\""@ + decimal_text(bounds.mins.y)
        + "\" width=\""@ + decimal_text(bounds.width()) + "\" height=\""@ + decimal_text(
        bounds.height(),
    ) + "\" viewBox=\""@ + decimal_text(viewbox.mins.x) + " "@ + decimal_text(viewbox.mins.y) + " "@
        + decimal_text(viewbox.width()) + " "@ + decimal_text(viewbox.height())
        + "\" preserveAspectRatio=\"none\" xmlns=\"http://www.w3.org/2000/svg\" xmlns:xlink=\"http://www.w3.org/1999/xlink\">"@
}

/// Markup wrapped into an `svg` element that carries its placement.
pub open spec fn wrapped_svg(body: Seq<char>, bounds: BoxModel, viewbox: BoxModel) -> Seq<char> {
    svg_opening(bounds, viewbox) + body + "</svg>"@
}

/// Wraps markup into an `svg` element positioned and sized by `bounds`, with
/// `viewbox` as the coordinate system of the markup inside.
pub fn wrap_svg(body: &str, bounds: Aabb, viewbox: Aabb) -> (r: String)
    ensures
        r@ == wrapped_svg(body@, bounds@, viewbox@),
{
    let mut out = String::new();
    out.append("<svg x=\"");
    append_decimal(&mut out, bounds.mins.x as i128);
    out.append("\" y=\"");
    append_decimal(&mut out, bounds.mins.y as i128);
    out.append("\" width=\"");
    append_decimal(&mut out, bounds.maxs.x as i128 - bounds.mins.x as i128);
    out.append("\" height=\"");
    append_decimal(&mut out, bounds.maxs.y as i128 - bounds.mins.y as i128);
    out.append("\" viewBox=\"");
    append_decimal(&mut out, viewbox.mins.x as i128);
    out.append(" ");
    append_decimal(&mut out, viewbox.mins.y as i128);
    out.append(" ");
    append_decimal(&mut out, viewbox.maxs.x as i128 - viewbox.mins.x as i128);
    out.append(" ");
    append_decimal(&mut out, viewbox.maxs.y as i128 - viewbox.mins.y as i128);
    out.append(
        "\" preserveAspectRatio=\"none\" xmlns=\"http://www.w3.org/2000/svg\" xmlns:xlink=\"http://www.w3.org/1999/xlink\">",
    );
    assert(out@ =~= svg_opening(bounds@, viewbox@));
    out.append(body);
    out.append("</svg>");
    assert(out@ =~= wrapped_svg(body@, bounds@, viewbox@));
    out
}

/// Puts the XML declaration in front of markup, making it a document of its
/// own.
pub fn add_xml_header(svg: &str) -> (r: String)
    ensures
        r@ == xml_header() + svg@,
{
    let mut out = String::new();
    out.append("<?xml version=\"1.0\" standalone=\"no\"?>\n");
    out.append(svg);
    assert(out@ =~= xml_header() + svg@);
    out
}

/// Turns what the template engine gave into the markup of a stroke: the
/// rendered text is wrapped with its placement, a failure is reported as a
/// rejected template with the engine's error as its cause.
pub fn finish_render(rendered: Result<String, tera::Error>, bounds: Aabb, viewbox: Aabb) -> (r: Result<
    String,
    RenderError,
>)
    ensures
        match rendered {
            Ok(body) => r matches Ok(svg) && svg@ == wrapped_svg(body@, bounds@, viewbox@),
            Err(cause) => r matches Err(RenderError::TemplateSyntax(SyntaxFault::Rejected(carried)))
                && carried == cause,
        },
{
    match rendered {
        Ok(body) => Ok(wrap_svg(body.as_str(), bounds, viewbox)),
        Err(cause) => Err(RenderError::TemplateSyntax(SyntaxFault::Rejected(cause))),
    }
}

} // verus!
