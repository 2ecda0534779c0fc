use vstd::prelude::*;

use crate::config::ServiceConfig;

verus! {

/// Side of the smallest square that a channel's QR code is drawn in, in pixels.
pub const QR_MIN_SIZE: u32 = 200;

/// The SVG image of a QR code (medium error correction, smallest version) for
/// the text, at least `min_size` pixels wide and high, in the given dark and
/// light colors; `None` where the text does not fit in a QR code.
pub uninterp spec fn qr_svg_of(text: Seq<char>, min_size: u32, dark: Seq<char>, light: Seq<char>) -> Option<Seq<char>>;

/// Relies on `qrcode::QrCode::new` and its SVG `Renderer`: the image depends
/// on the text, the size and the colors alone. `requires` keeps the size far
/// from where the renderer's arithmetic would overflow.
#[verifier::external_body]
fn render_qr_svg(text: &str, min_size: u32, dark: &str, light: &str) -> (r: Option<String>)
    requires
        min_size <= 65536,
    ensures
        match r {
            Some(svg) => qr_svg_of(text@, min_size, dark@, light@) == Some(svg@),
            None => qr_svg_of(text@, min_size, dark@, light@) is None,
        },
{
    match qrcode::QrCode::new(text.as_bytes()) {
        Ok(code) => Some(
            code.render::<qrcode::render::svg::Color>()
                .min_dimensions(min_size, min_size)
                .dark_color(qrcode::render::svg::Color(dark))
                .light_color(qrcode::render::svg::Color(light))
                .build(),
        ),
        Err(_) => None,
    }
}

pub open spec fn black() -> Seq<char> {
    seq!['#', '0', '0', '0', '0', '0', '0']
}

pub open spec fn white() -> Seq<char> {
    seq!['#', 'f', 'f', 'f', 'f', 'f', 'f']
}

/// The QR code, black on white, that leads to the channel's page.
pub fn render_qr_code(config: &ServiceConfig, channel_id: &str) -> (r: Option<String>)
    ensures
        r.deep_view() == qr_svg_of(config.channel_page_url_spec(channel_id@), QR_MIN_SIZE, black(), white()),
{
    let url = config.channel_page_url(channel_id);
    proof {
        reveal_strlit("#000000");
        reveal_strlit("#ffffff");
        assert("#000000"@ =~= black());
        assert("#ffffff"@ =~= white());
    }
    render_qr_svg(url.as_str(), QR_MIN_SIZE, "#000000", "#ffffff")
}

} // verus!
