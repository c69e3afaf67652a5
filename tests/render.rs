use barcode_gen::config::{AuthConfig, Config};
use barcode_gen::render::{
    encode_png_300dpi, fits_config, generate_barcode, pixel_length, pixel_target, plan_render,
    symbol_format, symbol_options, symbol_rotation, symbol_scale, Raster, SymbolFormat,
    PIXELS_PER_METER,
};

fn raster(w: u32, h: u32) -> Raster {
    let pixels = (0..w * h).map(|i| (i % 256) as u8).collect();
    Raster { width: w, height: h, pixels }
}

#[test]
fn physical_size_pixels() {
    assert_eq!(pixel_length(40000), 472);
    assert_eq!(pixel_length(20000), 236);
    assert_eq!(pixel_length(74000), 874);
    assert_eq!(pixel_length(18000), 213);
    assert_eq!(pixel_length(25400), 300);
    assert_eq!(pixel_length(0), 0);
    assert_eq!(pixel_length(42), 0);
    assert_eq!(pixel_length(43), 1);
}

#[test]
fn pixel_target_needs_both_lengths() {
    assert_eq!(pixel_target(40000, 20000), Some((472, 236)));
    assert_eq!(pixel_target(0, 20000), None);
    assert_eq!(pixel_target(40000, 0), None);
    assert_eq!(pixel_target(40000, 10), None);
}

#[test]
fn option_tables_fall_back() {
    assert_eq!(symbol_format(0), SymbolFormat::CompactPdf417);
    assert_eq!(symbol_format(1), SymbolFormat::Pdf417);
    assert_eq!(symbol_format(3), SymbolFormat::DataMatrix);
    assert_eq!(symbol_format(7), SymbolFormat::Ean13);
    assert_eq!(symbol_format(8), SymbolFormat::CompactPdf417);
    assert_eq!(symbol_scale(0), 1);
    assert_eq!(symbol_scale(4), 5);
    assert_eq!(symbol_scale(5), 2);
    assert_eq!(symbol_rotation(1), 90);
    assert_eq!(symbol_rotation(3), 270);
    assert_eq!(symbol_rotation(4), 0);
    assert_eq!(SymbolFormat::Pdf417.name(), "PDF417");
    assert_eq!(SymbolFormat::QrCode.name(), "QRCode");
}

#[test]
fn option_text() {
    assert_eq!(symbol_options(3, 2), "columns:4,eclevel:2");
    assert_eq!(symbol_options(1, 6), "columns:2,eclevel:6");
    assert_eq!(symbol_options(9, 10), "columns:10,eclevel:10");
}

#[test]
fn plan_of_default_config() {
    let plan = plan_render(&Config::default());
    assert_eq!(plan.format, SymbolFormat::CompactPdf417);
    assert_eq!((plan.scale, plan.rotation), (2, 0));
    assert_eq!(plan.options, "columns:2,eclevel:2");
    assert_eq!(plan.content, "12345678");
    assert_eq!(plan.target, None);
}

#[test]
fn generate_keeps_raster_without_size() {
    let cfg = Config::default();
    let raw = raster(7, 3);
    assert!(fits_config(&cfg, &raw));
    let r = generate_barcode(&cfg, raw.clone());
    assert_eq!((r.width, r.height), (7, 3));
    assert_eq!(r.gray_image.pixels, raw.pixels);
    assert_eq!(r.format_name, "CompactPDF417");
}

#[test]
fn generate_resamples_to_physical_size() {
    let mut cfg = Config::default();
    cfg.format_index = 1;
    cfg.width_um = 40000;
    cfg.height_um = 20000;
    let r = generate_barcode(&cfg, raster(10, 4));
    assert_eq!((r.width, r.height), (472, 236));
    assert_eq!((r.gray_image.width, r.gray_image.height), (472, 236));
    assert_eq!(r.gray_image.pixels.len(), 472 * 236);
    assert_eq!(r.format_name, "PDF417");
}

#[test]
fn nearest_resampling_keeps_two_tones() {
    let mut cfg = Config::default();
    cfg.width_um = 254;
    cfg.height_um = 254;
    let raw = Raster { width: 2, height: 1, pixels: vec![0, 255] };
    let r = generate_barcode(&cfg, raw);
    assert_eq!((r.width, r.height), (3, 3));
    assert!(r.gray_image.pixels.iter().all(|&p| p == 0 || p == 255));
    assert!(r.gray_image.pixels.contains(&0) && r.gray_image.pixels.contains(&255));
}

#[test]
fn fits_config_rejects_short_buffer() {
    let cfg = Config::default();
    let raw = Raster { width: 3, height: 3, pixels: vec![0; 8] };
    assert!(!fits_config(&cfg, &raw));
}

#[test]
fn png_carries_300_dpi() {
    assert_eq!(PIXELS_PER_METER, 11811);
    let bytes = encode_png_300dpi(&raster(4, 2)).unwrap();
    assert_eq!(&bytes[..8], &[137, 80, 78, 71, 13, 10, 26, 10]);
    let at = bytes.windows(4).position(|w| w == b"pHYs").expect("density record");
    assert_eq!(&bytes[at + 4..at + 8], &11811u32.to_be_bytes());
    assert_eq!(&bytes[at + 8..at + 12], &11811u32.to_be_bytes());
    assert_eq!(bytes[at + 12], 1);
    let ihdr = bytes.windows(4).position(|w| w == b"IHDR").unwrap();
    assert_eq!(&bytes[ihdr + 4..ihdr + 8], &4u32.to_be_bytes());
    assert_eq!(&bytes[ihdr + 8..ihdr + 12], &2u32.to_be_bytes());
    assert_eq!(bytes[ihdr + 12], 8);
    assert_eq!(bytes[ihdr + 13], 0);
}

#[test]
fn png_of_empty_raster_fails() {
    assert!(encode_png_300dpi(&Raster { width: 0, height: 0, pixels: vec![] }).is_err());
}

#[test]
fn config_defaults() {
    let c = Config::default();
    assert_eq!(c.content, "12345678");
    assert_eq!((c.format_index, c.scale_index, c.rotate_index), (0, 1, 0));
    assert_eq!((c.columns_index, c.eclevel_index), (1, 2));
    assert_eq!((c.width_um, c.height_um), (0, 0));
    assert!(!c.abbott_mode);
    let a = AuthConfig::default();
    assert!(!a.remember && a.username.is_empty() && a.password.is_empty());
}

#[test]
fn resampling_to_same_size_copies() {
    let mut cfg = Config::default();
    cfg.width_um = 254;
    cfg.height_um = 254;
    let raw = raster(3, 3);
    let r = generate_barcode(&cfg, raw.clone());
    assert_eq!((r.width, r.height), (3, 3));
    assert_eq!(r.gray_image.pixels, raw.pixels);
}

#[test]
fn png_succeeds_on_non_empty_raster() {
    assert!(encode_png_300dpi(&raster(1, 1)).is_ok());
    assert!(encode_png_300dpi(&Raster { width: 2, height: 2, pixels: vec![0; 3] }).is_err());
    assert!(encode_png_300dpi(&Raster { width: 5, height: 0, pixels: vec![] }).is_err());
    let bytes = encode_png_300dpi(&raster(3, 1)).unwrap();
    assert_eq!(&bytes[33..41], &[0, 0, 0, 9, b'p', b'H', b'Y', b's']);
    assert_eq!(&bytes[41..45], &11811u32.to_be_bytes());
    assert_eq!(bytes[49], 1);
}
