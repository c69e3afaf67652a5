use barcode_gen::abbott::{
    build_long_content, build_short_content, export_file_name, long_config, short_config,
    AbbottReagent,
};

fn sample_reagent() -> AbbottReagent {
    AbbottReagent {
        name: "CTNI 红".to_string(),
        short_prefix: "H".to_string(),
        long_prefix: "G".to_string(),
        generates_long: true,
        generates_short: true,
        project_bits: "6201010300001".to_string(),
        long_trailing: "XYZ".to_string(),
        default_sn: "01137".to_string(),
    }
}

#[test]
fn short_content_literal() {
    let r = sample_reagent();
    assert_eq!(build_short_content("01137", &r, "81307", "UD00"), "A01137H81307UD00");
}

#[test]
fn long_content_literal() {
    let r = sample_reagent();
    assert_eq!(
        build_long_content("01137", &r, "81307", "UD00", "07062024", None),
        "A01137G81307UD0007062024".to_string() + "6201010300001" + "XYZ"
    );
}

#[test]
fn long_content_bits_override() {
    let r = sample_reagent();
    assert_eq!(
        build_long_content("01137", &r, "81307", "UD00", "07062024", Some("9999")),
        "A01137G81307UD00070620249999XYZ"
    );
    assert_eq!(
        build_long_content("01137", &r, "81307", "UD00", "07062024", Some("")),
        "A01137G81307UD00070620246201010300001XYZ"
    );
}

#[test]
fn content_with_empty_fields() {
    let r = sample_reagent();
    assert_eq!(build_short_content("", &r, "", ""), "AH");
}

#[test]
fn code_configs() {
    let long = long_config("L");
    assert_eq!(long.content, "L");
    assert_eq!(
        (long.format_index, long.scale_index, long.rotate_index, long.columns_index),
        (1, 1, 0, 3)
    );
    assert_eq!((long.eclevel_index, long.width_um, long.height_um), (2, 40000, 20000));
    let short = short_config("S");
    assert_eq!(short.content, "S");
    assert_eq!(
        (short.format_index, short.scale_index, short.rotate_index, short.columns_index),
        (0, 1, 1, 1)
    );
    assert_eq!((short.eclevel_index, short.width_um, short.height_um), (6, 74000, 18000));
}

#[test]
fn export_names() {
    assert_eq!(export_file_name(0, "CTNI 红 长码"), "01_CTNI_红_长码.png");
    assert_eq!(export_file_name(9, "a/b c"), "10_a_b_c.png");
    assert_eq!(export_file_name(122, ""), "123_.png");
}
