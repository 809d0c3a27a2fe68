//! The QR renderer collaborator: turns a short URL into scalable vector
//! markup encoding it, at least 300 by 300 logical units, dark on light.

use vstd::prelude::*;

verus! {

/// The SVG markup that the QR renderer produces for `text`, or `None` when
/// the text fits no QR version. The rendering is deterministic, so both the
/// markup and whether rendering succeeds are functions of the encoded text
/// alone.
pub uninterp spec fn qr_svg_of(text: Seq<char>) -> Option<Seq<char>>;

/// Relies on `qrcode::QrCode::new` and the `qrcode::render::svg` renderer:
/// encoding and mask selection are deterministic, so the markup is a function
/// of `text` alone; `new` returns an error exactly when the data fits no QR
/// version, so success is a function of `text` too.
#[verifier::external_body]
pub(crate) fn render_qr_svg(text: &str) -> (r: Option<String>)
    ensures
        r matches Some(s) ==> qr_svg_of(text@) == Some(s@),
        r is None ==> qr_svg_of(text@) is None,
{
    let code = match qrcode::QrCode::new(text.as_bytes()) {
        Ok(c) => c,
        Err(_) => return None,
    };
    let markup = code.render::<qrcode::render::svg::Color>().min_dimensions(300, 300).dark_color(
        qrcode::render::svg::Color("#000000"),
    ).light_color(qrcode::render::svg::Color("#ffffff")).build();
    Some(markup)
}

} // verus!
