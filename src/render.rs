//! The rendering pipeline around the symbol engine: option tables, the
//! physical-size resampling at 300 DPI and the grayscale PNG with its density record.
use vstd::prelude::*;
use crate::config::Config;
use crate::text::{append_decimal, decimal};

verus! {

/// The pixel density of every written image: 300 DPI in pixels per metre.
pub const PIXELS_PER_METER: u32 = 11811;

/// The symbol families, in the order in which a format index selects them.
#[derive(Debug, Clone, Copy, PartialEq, Eq, Structural)]
pub enum SymbolFormat {
    CompactPdf417,
    Pdf417,
    QrCode,
    DataMatrix,
    Code128,
    Code39,
    Aztec,
    Ean13,
}

/// The family that a format index selects; out of range, the first.
pub open spec fn format_at(index: nat) -> SymbolFormat {
    if index == 1 {
        SymbolFormat::Pdf417
    } else if index == 2 {
        SymbolFormat::QrCode
    } else if index == 3 {
        SymbolFormat::DataMatrix
    } else if index == 4 {
        SymbolFormat::Code128
    } else if index == 5 {
        SymbolFormat::Code39
    } else if index == 6 {
        SymbolFormat::Aztec
    } else if index == 7 {
        SymbolFormat::Ean13
    } else {
        SymbolFormat::CompactPdf417
    }
}

/// The scale that a scale index selects from `1, 2, 3, 4, 5`; out of range, 2.
pub open spec fn scale_at(index: nat) -> nat {
    if index < 5 {
        index + 1
    } else {
        2
    }
}

/// The rotation in degrees that a rotation index selects from `0, 90, 180, 270`; out of
/// range, 0.
pub open spec fn rotation_at(index: nat) -> nat {
    if index < 4 {
        90 * index
    } else {
        0
    }
}

/// The engine's option text: `columns:<columns_index + 1>,eclevel:<eclevel_index>`.
pub open spec fn options_text(columns_index: nat, eclevel_index: nat) -> Seq<char> {
    "columns:"@ + decimal(columns_index + 1) + ",eclevel:"@ + decimal(eclevel_index)
}

/// The pixels that `um` micrometres take at 300 DPI: `um / 25400 * 300` rounded to the
/// nearest integer, halves up.
pub open spec fn pixels_for_length(um: nat) -> nat {
    ((6 * um + 254) / 508) as nat
}

/// The pixel size to resample to, when both lengths are positive and give positive
/// pixel counts.
pub open spec fn target_size(width_um: u32, height_um: u32) -> Option<(u32, u32)> {
    let w = pixels_for_length(width_um as nat);
    let h = pixels_for_length(height_um as nat);
    if width_um > 0 && height_um > 0 && w > 0 && h > 0 {
        Some((w as u32, h as u32))
    } else {
        None
    }
}

impl SymbolFormat {
    /// The family's display name.
    pub open spec fn spec_name(self) -> Seq<char> {
        match self {
            SymbolFormat::CompactPdf417 => "CompactPDF417"@,
            SymbolFormat::Pdf417 => "PDF417"@,
            SymbolFormat::QrCode => "QRCode"@,
            SymbolFormat::DataMatrix => "DataMatrix"@,
            SymbolFormat::Code128 => "Code128"@,
            SymbolFormat::Code39 => "Code39"@,
            SymbolFormat::Aztec => "Aztec"@,
            SymbolFormat::Ean13 => "EAN13"@,
        }
    }

    /// The family's display name.
    pub fn name(&self) -> (r: String)
        ensures
            r@ == self.spec_name(),
    {
        match self {
            SymbolFormat::CompactPdf417 => String::from_str("CompactPDF417"),
            SymbolFormat::Pdf417 => String::from_str("PDF417"),
            SymbolFormat::QrCode => String::from_str("QRCode"),
            SymbolFormat::DataMatrix => String::from_str("DataMatrix"),
            SymbolFormat::Code128 => String::from_str("Code128"),
            SymbolFormat::Code39 => String::from_str("Code39"),
            SymbolFormat::Aztec => String::from_str("Aztec"),
            SymbolFormat::Ean13 => String::from_str("EAN13"),
        }
    }
}

/// Selects a symbol family by index, falling back to the first.
pub fn symbol_format(index: usize) -> (r: SymbolFormat)
    ensures
        r == format_at(index as nat),
{
    match index {
        1 => SymbolFormat::Pdf417,
        2 => SymbolFormat::QrCode,
        3 => SymbolFormat::DataMatrix,
        4 => SymbolFormat::Code128,
        5 => SymbolFormat::Code39,
        6 => SymbolFormat::Aztec,
        7 => SymbolFormat::Ean13,
        _ => SymbolFormat::CompactPdf417,
    }
}

/// Selects a scale by index, falling back to 2.
pub fn symbol_scale(index: usize) -> (r: u32)
    ensures
        r as nat == scale_at(index as nat),
{
    if index < 5 {
        index as u32 + 1
    } else {
        2
    }
}

/// Selects a rotation in degrees by index, falling back to 0.
pub fn symbol_rotation(index: usize) -> (r: u32)
    ensures
        r as nat == rotation_at(index as nat),
{
    if index < 4 {
        90 * index as u32
    } else {
        0
    }
}

/// The engine's option text for a column index and an error-correction level.
pub fn symbol_options(columns_index: usize, eclevel_index: usize) -> (r: String)
    requires
        columns_index < usize::MAX,
    ensures
        r@ == options_text(columns_index as nat, eclevel_index as nat),
{
    let mut out = String::from_str("columns:");
    append_decimal(&mut out, columns_index as u64 + 1);
    out.append(",eclevel:");
    append_decimal(&mut out, eclevel_index as u64);
    out
}

/// The pixels that a length in micrometres takes at 300 DPI.
pub fn pixel_length(um: u32) -> (r: u32)
    ensures
        r as nat == pixels_for_length(um as nat),
{
    ((6 * um as u64 + 254) / 508) as u32
}

/// `pixels_for_length` is the integer nearest to the exact pixel count `3 * um / 254`
/// (a half rounds up).
pub proof fn lemma_pixels_nearest(um: nat)
    ensures
        254 * pixels_for_length(um) <= 3 * um + 127 < 254 * pixels_for_length(um) + 254,
{
    let n = 6 * um as int + 254;
    vstd::arithmetic::div_mod::lemma_fundamental_div_mod(n, 508);
    assert(0 <= n % 508 < 508);
}

/// The pixel size to resample to, if any.
pub fn pixel_target(width_um: u32, height_um: u32) -> (r: Option<(u32, u32)>)
    ensures
        r == target_size(width_um, height_um),
{
    if width_um > 0 && height_um > 0 {
        let w = pixel_length(width_um);
        let h = pixel_length(height_um);
        if w > 0 && h > 0 {
            return Some((w, h));
        }
    }
    None
}

/// A grayscale raster: one byte per pixel, row by row.
#[derive(Debug, Clone)]
pub struct Raster {
    pub width: u32,
    pub height: u32,
    pub pixels: Vec<u8>,
}

impl Raster {
    /// The pixel buffer holds exactly `width * height` bytes.
    pub open spec fn wf(&self) -> bool {
        self.pixels@.len() == self.width as int * self.height as int
    }
}

/// What the nearest-neighbour resampler makes of a raster.
pub uninterp spec fn nearest_resample(
    pixels: Seq<u8>,
    width: u32,
    height: u32,
    new_width: u32,
    new_height: u32,
) -> Seq<u8>;

/// Whether resampling a raster of width `width` to `target` stays within what memory can
/// address.
pub open spec fn resample_fits(width: u32, target: Option<(u32, u32)>) -> bool {
    match target {
        Some((w, h)) => width as int * h as int * 16 <= isize::MAX && w as int * h as int
            <= isize::MAX,
        None => true,
    }
}

/// `out` is `raw` resampled to `target`, or `raw` itself when there is no target.
pub open spec fn is_finished(out: Raster, raw: Raster, target: Option<(u32, u32)>) -> bool {
    match target {
        Some((w, h)) => out.width == w && out.height == h && out.pixels@ == nearest_resample(
            raw.pixels@,
            raw.width,
            raw.height,
            w,
            h,
        ),
        None => out.width == raw.width && out.height == raw.height && out.pixels@
            == raw.pixels@,
    }
}

/// Relies on `image::GrayImage::from_raw` and `image::imageops::resize` with
/// `FilterType::Nearest`: the result has the requested size; a raster of the same size
/// is copied; otherwise each pixel is taken from a one-pixel window of the source.
#[verifier::external_body]
fn resize_nearest(src: &Raster, new_width: u32, new_height: u32) -> (r: Raster)
    requires
        src.wf(),
        resample_fits(src.width, Some((new_width, new_height))),
    ensures
        r.width == new_width,
        r.height == new_height,
        r.wf(),
        r.pixels@ == nearest_resample(src.pixels@, src.width, src.height, new_width, new_height),
        new_width == src.width && new_height == src.height ==> r.pixels@ == src.pixels@,
        src.width > 0 && src.height > 0 ==> forall|k: int|
            0 <= k < r.pixels@.len() ==> src.pixels@.contains(#[trigger] r.pixels@[k]),
{
    let img = image::GrayImage::from_raw(src.width, src.height, src.pixels.clone()).unwrap();
    let out = image::imageops::resize(
        &img,
        new_width,
        new_height,
        image::imageops::FilterType::Nearest,
    );
    Raster { width: out.width(), height: out.height(), pixels: out.into_raw() }
}

/// A rendered symbol: the final raster, its size and the family's name.
#[derive(Debug, Clone)]
pub struct BarcodeResult {
    pub gray_image: Raster,
    pub width: u32,
    pub height: u32,
    pub format_name: String,
}

/// The symbol engine refused a payload with its settings.
#[derive(Debug, Clone, PartialEq, Eq)]
pub struct RenderError {
    pub message: String,
}

/// Everything the symbol engine is asked for, resolved from a `Config`.
#[derive(Debug, Clone)]
pub struct RenderPlan {
    pub format: SymbolFormat,
    pub scale: u32,
    pub rotation: u32,
    pub options: String,
    pub content: String,
    /// The pixel size to resample to, if any.
    pub target: Option<(u32, u32)>,
}

/// `plan` is what `config` resolves to.
pub open spec fn plans(plan: RenderPlan, config: Config) -> bool {
    &&& plan.format == format_at(config.format_index as nat)
    &&& plan.scale as nat == scale_at(config.scale_index as nat)
    &&& plan.rotation as nat == rotation_at(config.rotate_index as nat)
    &&& plan.options@ == options_text(config.columns_index as nat, config.eclevel_index as nat)
    &&& plan.content@ == config.content@
    &&& plan.target == target_size(config.width_um, config.height_um)
}

/// Resolves a config: out-of-range indices take the tables' defaults.
pub fn plan_render(config: &Config) -> (r: RenderPlan)
    requires
        config.columns_index < usize::MAX,
    ensures
        plans(r, *config),
{
    RenderPlan {
        format: symbol_format(config.format_index),
        scale: symbol_scale(config.scale_index),
        rotation: symbol_rotation(config.rotate_index),
        options: symbol_options(config.columns_index, config.eclevel_index),
        content: config.content.clone(),
        target: pixel_target(config.width_um, config.height_um),
    }
}

/// `r` is the result of rendering `config` when the engine gave `raw`.
pub open spec fn renders(r: BarcodeResult, config: Config, raw: Raster) -> bool {
    &&& is_finished(r.gray_image, raw, target_size(config.width_um, config.height_um))
    &&& r.gray_image.wf()
    &&& r.width == r.gray_image.width
    &&& r.height == r.gray_image.height
    &&& r.format_name@ == format_at(config.format_index as nat).spec_name()
}

/// Whether `raw`, as the engine's raster for `config`, can be finished.
pub open spec fn can_finish(config: Config, raw: Raster) -> bool {
    raw.wf() && resample_fits(raw.width, target_size(config.width_um, config.height_um))
}

/// Tells whether `raw` can be finished for `config`.
pub fn fits_config(config: &Config, raw: &Raster) -> (r: bool)
    ensures
        r == can_finish(*config, *raw),
{
    let width = raw.width as u128;
    let height = raw.height as u128;
    proof {
        lemma_product_bound(width as int, height as int);
    }
    if raw.pixels.len() as u128 != width * height {
        return false;
    }
    match pixel_target(config.width_um, config.height_um) {
        Some((w, h)) => {
            let (w, h) = (w as u128, h as u128);
            proof {
                lemma_product_bound(width as int, h as int);
                lemma_product_bound(w as int, h as int);
            }
            width * h * 16 <= isize::MAX as u128 && w * h <= isize::MAX as u128
        },
        None => true,
    }
}

proof fn lemma_product_bound(a: int, b: int)
    requires
        0 <= a <= u32::MAX,
        0 <= b <= u32::MAX,
    ensures
        0 <= a * b <= u64::MAX,
{
    assert(0 <= a * b <= u32::MAX as int * u32::MAX as int) by (nonlinear_arith)
        requires
            0 <= a <= u32::MAX,
            0 <= b <= u32::MAX,
    ;
}

/// Finishes the engine's raster `raw` for `config`: resampled with nearest neighbours to
/// the physical size at 300 DPI when one is set, else kept as it is.
pub fn generate_barcode(config: &Config, raw: Raster) -> (r: BarcodeResult)
    requires
        can_finish(*config, raw),
    ensures
        renders(r, *config, raw),
{
    let target = pixel_target(config.width_um, config.height_um);
    let gray_image = match target {
        Some((w, h)) => resize_nearest(&raw, w, h),
        None => raw,
    };
    let width = gray_image.width;
    let height = gray_image.height;
    BarcodeResult {
        gray_image,
        width,
        height,
        format_name: symbol_format(config.format_index).name(),
    }
}

/// What the PNG encoder writes for a grayscale raster with a density record.
pub uninterp spec fn png_gray8(
    pixels: Seq<u8>,
    width: u32,
    height: u32,
    pixels_per_meter: u32,
) -> Seq<u8>;

/// The four bytes of `x`, most significant first.
pub open spec fn be_bytes(x: u32) -> Seq<u8> {
    seq![
        (x / 0x100_0000) as u8,
        ((x / 0x1_0000) % 256) as u8,
        ((x / 0x100) % 256) as u8,
        (x % 256) as u8,
    ]
}

/// `b` starts with the PNG signature, an image header for an 8-bit grayscale image of
/// `width` by `height`, and a pHYs record of `ppm` pixels per metre on both axes.
pub open spec fn png_gray8_header(b: Seq<u8>, width: u32, height: u32, ppm: u32) -> bool {
    &&& b.len() >= 54
    &&& b.subrange(0, 8) == seq![137u8, 80, 78, 71, 13, 10, 26, 10]
    &&& b.subrange(8, 16) == seq![0u8, 0, 0, 13, 73, 72, 68, 82]
    &&& b.subrange(16, 20) == be_bytes(width)
    &&& b.subrange(20, 24) == be_bytes(height)
    &&& b.subrange(24, 29) == seq![8u8, 0, 0, 0, 0]
    &&& b.subrange(33, 41) == seq![0u8, 0, 0, 9, 112, 72, 89, 115]
    &&& b.subrange(41, 45) == be_bytes(ppm)
    &&& b.subrange(45, 49) == be_bytes(ppm)
    &&& b[49] == 1
}

#[verifier::external_type_specification]
#[verifier::external_body]
pub struct ExEncodingError(png::EncodingError);

/// Relies on `png::Encoder` writing into memory: an 8-bit grayscale image with a pHYs
/// record of `ppm` pixels per metre on both axes, written right after the image header. It
/// fails only on a zero width or height, or on a buffer of the wrong size.
#[verifier::external_body]
fn encode_png_gray8(img: &Raster, ppm: u32) -> (r: Result<Vec<u8>, png::EncodingError>)
    ensures
        img.wf() && img.width > 0 && img.height > 0 ==> r is Ok,
        r is Ok ==> img.wf() && img.width > 0 && img.height > 0,
        r matches Ok(b) ==> b@ == png_gray8(img.pixels@, img.width, img.height, ppm),
        r matches Ok(b) ==> png_gray8_header(b@, img.width, img.height, ppm),
{
    let mut out: Vec<u8> = Vec::new();
    let mut encoder = png::Encoder::new(&mut out, img.width, img.height);
    encoder.set_color(png::ColorType::Grayscale);
    encoder.set_depth(png::BitDepth::Eight);
    encoder.set_pixel_dims(Some(png::PixelDimensions { xppu: ppm, yppu: ppm, unit: png::Unit::Meter }));
    let mut writer = encoder.write_header()?;
    writer.write_image_data(&img.pixels)?;
    writer.finish()?;
    Ok(out)
}

/// Writing a raster as PNG failed.
#[derive(Debug)]
pub struct ImageEncodeError {
    pub source: png::EncodingError,
}

/// The PNG file of a raster: 8-bit grayscale, 300 DPI recorded as 11811 pixels per metre
/// on both axes. It fails exactly on an empty or malformed raster.
pub fn encode_png_300dpi(img: &Raster) -> (r: Result<Vec<u8>, ImageEncodeError>)
    ensures
        r is Ok <==> img.wf() && img.width > 0 && img.height > 0,
        r matches Ok(b) ==> b@ == png_gray8(img.pixels@, img.width, img.height, PIXELS_PER_METER),
        r matches Ok(b) ==> png_gray8_header(b@, img.width, img.height, PIXELS_PER_METER),
{
    match encode_png_gray8(img, PIXELS_PER_METER) {
        Ok(b) => Ok(b),
        Err(e) => Err(ImageEncodeError { source: e }),
    }
}

} // verus!
