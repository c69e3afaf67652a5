use barcode_gen::abbott::{
    generate_abbott_barcodes, plan_abbott_barcodes, project_defaults, AbbottProject,
    AbbottReagent, CodeKind,
};
use barcode_gen::catalog::default_abbott_projects;
use barcode_gen::render::{Raster, RenderError};

fn reagent(name: &str, prefix: &str, long: bool, short: bool) -> AbbottReagent {
    AbbottReagent {
        name: name.to_string(),
        short_prefix: prefix.to_string(),
        long_prefix: "G".to_string(),
        generates_long: long,
        generates_short: short,
        project_bits: "6201010300001".to_string(),
        long_trailing: "XYZ".to_string(),
        default_sn: format!("0{}", prefix),
    }
}

fn three_reagent_project() -> AbbottProject {
    AbbottProject {
        name: "P".to_string(),
        control_no_suffix: "UN24".to_string(),
        control_no_default_number: "71084".to_string(),
        expiry_format: "DDMMYYYY".to_string(),
        reagents: vec![
            reagent("R1", "G", true, true),
            reagent("R2", "H", false, true),
            reagent("R3", "J", false, true),
        ],
    }
}

fn raster(w: u32, h: u32) -> Raster {
    Raster { width: w, height: h, pixels: vec![255u8; (w * h) as usize] }
}

#[test]
fn batch_order_long_then_short() {
    let p = three_reagent_project();
    let sns = vec!["11111".to_string(), "22222".to_string(), "33333".to_string()];
    let plan = plan_abbott_barcodes(&p, &sns, "81307", "2024-06-07", "");
    let kinds: Vec<CodeKind> = plan.iter().map(|e| e.kind).collect();
    assert_eq!(kinds, vec![CodeKind::Long, CodeKind::Short, CodeKind::Short, CodeKind::Short]);
    let labels: Vec<&str> = plan.iter().map(|e| e.label.as_str()).collect();
    assert_eq!(labels, vec!["R1 长码", "R1 短码", "R2 短码", "R3 短码"]);
    let contents: Vec<&str> = plan.iter().map(|e| e.config.content.as_str()).collect();
    assert_eq!(
        contents,
        vec![
            "A11111G81307UN24070620246201010300001XYZ",
            "A11111G81307UN24",
            "A22222H81307UN24",
            "A33333J81307UN24",
        ]
    );
}

#[test]
fn batch_missing_serial_is_empty_and_override_applies() {
    let p = three_reagent_project();
    let sns = vec!["11111".to_string()];
    let plan = plan_abbott_barcodes(&p, &sns, "1", "2024-06-07", "42");
    assert_eq!(plan[0].config.content, "A11111G1UN240706202442XYZ");
    assert_eq!(plan[2].config.content, "AH1UN24");
    assert_eq!(plan[3].config.content, "AJ1UN24");
}

#[test]
fn batch_zero_padded_expiry() {
    let mut p = three_reagent_project();
    p.expiry_format = "00DDMMYYYY".to_string();
    let plan = plan_abbott_barcodes(&p, &[], "1", "2024-06-07", "");
    assert_eq!(plan[0].config.content, "AG1UN2400070620246201010300001XYZ");
}

#[test]
fn batch_all_rendered() {
    let p = three_reagent_project();
    let plan = plan_abbott_barcodes(&p, &[], "1", "2024-06-07", "");
    let rendered: Vec<Result<Raster, RenderError>> = (0..4).map(|_| Ok(raster(10, 5))).collect();
    let items = generate_abbott_barcodes(&plan, rendered).unwrap();
    assert_eq!(items.len(), 4);
    assert_eq!((items[0].gray_image.width, items[0].gray_image.height), (472, 236));
    assert_eq!((items[1].gray_image.width, items[1].gray_image.height), (874, 213));
    assert_eq!(items[1].gray_image.pixels.len(), 874 * 213);
    assert_eq!(items[3].label, "R3 短码");
    assert_eq!(items[3].content, "AJ1UN24");
}

#[test]
fn batch_aborts_on_second_failure() {
    let p = three_reagent_project();
    let plan = plan_abbott_barcodes(&p, &[], "1", "2024-06-07", "");
    let err = RenderError { message: "too long".to_string() };
    let rendered = vec![Ok(raster(10, 5)), Err(err.clone())];
    assert_eq!(generate_abbott_barcodes(&plan, rendered).unwrap_err(), err);
}

#[test]
fn batch_first_failure_wins() {
    let p = three_reagent_project();
    let plan = plan_abbott_barcodes(&p, &[], "1", "2024-06-07", "");
    let first = RenderError { message: "first".to_string() };
    let second = RenderError { message: "second".to_string() };
    let rendered = vec![Err(first.clone()), Err(second)];
    assert_eq!(generate_abbott_barcodes(&plan, rendered).unwrap_err(), first);
}

#[test]
fn default_catalog_shape() {
    let cfg = default_abbott_projects();
    let names: Vec<&str> = cfg.projects.iter().map(|p| p.name.as_str()).collect();
    assert_eq!(names, vec!["CTNI", "CK-MB", "Myo", "BNP"]);
    let counts: Vec<usize> = cfg.projects.iter().map(|p| p.reagents.len()).collect();
    assert_eq!(counts, vec![2, 2, 3, 3]);
    for p in &cfg.projects {
        assert!(p.reagents[0].generates_long && !p.reagents[0].generates_short);
        for r in &p.reagents[1..] {
            assert!(!r.generates_long && r.generates_short);
        }
    }
}

#[test]
fn default_catalog_ctni_batch() {
    let cfg = default_abbott_projects();
    let ctni = &cfg.projects[0];
    let sns = vec!["01137".to_string(), "01137".to_string()];
    let plan = plan_abbott_barcodes(ctni, &sns, "81307", "2024-06-07", "");
    assert_eq!(plan.len(), 2);
    assert_eq!(
        plan[0].config.content,
        "A01137G81307UD00070620246201010300001H0000162001AAAGOAABTZAAINQABPTEBCAUMDXUWW00000AAAAAAAAAAAAAAAAAAAAAAAAAAAAAA"
    );
    assert_eq!(plan[1].config.content, "A01137H81307UD00");
}

#[test]
fn project_defaults_of_catalog() {
    let cfg = default_abbott_projects();
    let d = project_defaults(&cfg.projects[2]);
    assert_eq!(d.reagent_count, 3);
    assert_eq!(d.control_no, "71084");
    assert_eq!(d.project_bits.as_deref(), Some("4612010300002"));
    assert_eq!(d.sns, vec!["03157", "02972", "03824"]);
    let d = project_defaults(&cfg.projects[1]);
    assert_eq!(d.sns, vec!["03157", "06975", ""]);
}

#[test]
fn project_defaults_without_long_code() {
    let mut p = three_reagent_project();
    p.reagents[0].generates_long = false;
    let d = project_defaults(&p);
    assert_eq!(d.project_bits, None);
}

#[test]
fn default_catalog_fields() {
    let cfg = default_abbott_projects();
    let bits = ["6201010300001", "4712010300001", "4612010300002", "0000000000000"];
    let numbers = ["81307", "93880", "71084", "71084"];
    for (i, p) in cfg.projects.iter().enumerate() {
        assert_eq!(p.control_no_default_number, numbers[i]);
        assert_eq!(p.expiry_format, "DDMMYYYY");
        for r in &p.reagents {
            assert_eq!(r.project_bits, bits[i]);
            assert_eq!(r.long_prefix, "G");
        }
        assert_eq!(p.reagents[0].long_trailing.len(), 76);
        assert!(p.reagents[1..].iter().all(|r| r.long_trailing.is_empty()));
    }
    let myo: Vec<&str> = cfg.projects[2].reagents.iter().map(|r| r.short_prefix.as_str()).collect();
    assert_eq!(myo, vec!["G", "H", "J"]);
    assert_eq!(cfg.projects[0].reagents[1].name, "CTNI 黄");
    assert_eq!(cfg.projects[1].reagents[1].default_sn, "06975");
}
