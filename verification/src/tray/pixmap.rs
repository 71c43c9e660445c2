//! Pictures for the tray: from the bytes of a PNG file to the pixels that a
//! status notifier takes.

use vstd::prelude::*;

verus! {

/// A picture as a status notifier takes it: four bytes for each pixel, in
/// the order alpha, red, green, blue, row after row.
#[derive(Debug, Clone, PartialEq, Eq)]
pub struct Pixmap {
    pub width: i32,
    pub height: i32,
    pub data: Vec<u8>,
}

pub struct PixmapView {
    pub width: i32,
    pub height: i32,
    pub data: Seq<u8>,
}

impl View for Pixmap {
    type V = PixmapView;

    open spec fn view(&self) -> PixmapView {
        PixmapView { width: self.width, height: self.height, data: self.data@ }
    }
}

impl DeepView for Pixmap {
    type V = PixmapView;

    open spec fn deep_view(&self) -> PixmapView {
        self@
    }
}

/// A decoded picture: its width, its height, and four bytes for each pixel
/// in the order red, green, blue, alpha.
pub struct Raster {
    pub width: u32,
    pub height: u32,
    pub rgba: Seq<u8>,
}

/// What the `image` crate makes of the bytes of a PNG file: the picture, or
/// nothing where it cannot decode them.
pub uninterp spec fn png_raster(bytes: Seq<u8>) -> Option<Raster>;

/// Decodes a PNG file with `image::load_from_memory_with_format`, and hands
/// out the width and the height of the picture and its pixels as
/// `DynamicImage::into_rgba8` lays them out. `None` stands for any error of
/// the decoder. The contract gives the result a name and says no more of it.
#[verifier::external_body]
fn decode_png(bytes: &[u8]) -> (r: Option<(u32, u32, Vec<u8>)>)
    ensures
        match r {
            Some((width, height, rgba)) => png_raster(bytes@) == Some(
                Raster { width, height, rgba: rgba@ },
            ),
            None => png_raster(bytes@) is None,
        },
{
    match image::load_from_memory_with_format(bytes, image::ImageFormat::Png) {
        Ok(picture) => {
            let pixels = picture.into_rgba8();
            Some((pixels.width(), pixels.height(), pixels.into_vec()))
        },
        Err(_) => None,
    }
}

/// The pixels with the alpha byte of each moved to the front.
pub open spec fn spec_argb(rgba: Seq<u8>) -> Seq<u8> {
    Seq::new(
        rgba.len(),
        |i: int|
            if i % 4 == 0 {
                rgba[i + 3]
            } else {
                rgba[i - 1]
            },
    )
}

/// The picture for the tray, where the raster fits one: its sides fit a
/// signed 32-bit number, and its bytes come in fours.
pub open spec fn spec_pixmap(raster: Raster) -> Option<PixmapView> {
    if raster.width <= i32::MAX && raster.height <= i32::MAX && raster.rgba.len() % 4 == 0 {
        Some(
            PixmapView {
                width: raster.width as i32,
                height: raster.height as i32,
                data: spec_argb(raster.rgba),
            },
        )
    } else {
        None
    }
}

/// Moves the alpha byte of each pixel to the front. `None` where the bytes
/// do not come in fours.
pub fn rgba_to_argb(rgba: Vec<u8>) -> (r: Option<Vec<u8>>)
    ensures
        match r {
            Some(argb) => rgba.len() % 4 == 0 && argb@ == spec_argb(rgba@),
            None => rgba.len() % 4 != 0,
        },
{
    if rgba.len() % 4 != 0 {
        return None;
    }
    let mut data = rgba;
    let mut at: usize = 0;
    while at < data.len()
        invariant
            data.len() == rgba.len(),
            rgba.len() % 4 == 0,
            at % 4 == 0,
            at <= data.len(),
            forall|i: int| 0 <= i < at ==> data@[i] == spec_argb(rgba@)[i],
            forall|i: int| at <= i < data.len() ==> data@[i] == rgba@[i],
        decreases data.len() - at,
    {
        let red: u8 = data[at];
        let green: u8 = data[at + 1];
        let blue: u8 = data[at + 2];
        let alpha: u8 = data[at + 3];
        data.set(at, alpha);
        data.set(at + 1, red);
        data.set(at + 2, green);
        data.set(at + 3, blue);
        at += 4;
    }
    assert(data@ =~= spec_argb(rgba@));
    Some(data)
}

/// Makes the picture for the tray from a decoded picture.
pub fn pixmap_from_raster(width: u32, height: u32, rgba: Vec<u8>) -> (r: Option<Pixmap>)
    ensures
        r.deep_view() == spec_pixmap(Raster { width, height, rgba: rgba@ }),
{
    if width > 0x7fff_ffff || height > 0x7fff_ffff {
        return None;
    }
    match rgba_to_argb(rgba) {
        Some(data) => Some(Pixmap { width: width as i32, height: height as i32, data }),
        None => None,
    }
}

/// Makes the picture for the tray from the bytes of a PNG file. `None` where
/// the bytes are no PNG file, or the picture does not fit.
pub fn get_icon_from_image_bytes(image_bytes: &[u8]) -> (r: Option<Pixmap>)
    ensures
        r.deep_view() == (match png_raster(image_bytes@) {
            Some(raster) => spec_pixmap(raster),
            None => None,
        }),
{
    match decode_png(image_bytes) {
        Some((width, height, rgba)) => pixmap_from_raster(width, height, rgba),
        None => None,
    }
}

} // verus!
