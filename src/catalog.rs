//! The built-in catalog of reagent projects.
use vstd::prelude::*;
use crate::abbott::{AbbottProject, AbbottProjectsConfig, AbbottReagent};
use crate::field::all_digits;

verus! {

/// The reagent with these fields; its long prefix is "G".
fn reagent(
    name: &str,
    short_prefix: &str,
    generates_long: bool,
    project_bits: &str,
    long_trailing: &str,
    default_sn: &str,
) -> (r: AbbottReagent)
    ensures
        r.name@ == name@,
        r.short_prefix@ == short_prefix@,
        r.long_prefix@ == "G"@,
        r.generates_long == generates_long,
        r.generates_short == !generates_long,
        r.project_bits@ == project_bits@,
        r.long_trailing@ == long_trailing@,
        r.default_sn@ == default_sn@,
{
    AbbottReagent {
        name: String::from_str(name),
        short_prefix: String::from_str(short_prefix),
        long_prefix: String::from_str("G"),
        generates_long,
        generates_short: !generates_long,
        project_bits: String::from_str(project_bits),
        long_trailing: String::from_str(long_trailing),
        default_sn: String::from_str(default_sn),
    }
}

/// The project with these fields; its expiry mode is "DDMMYYYY".
fn project(
    name: &str,
    control_no_suffix: &str,
    control_no_default_number: &str,
    reagents: Vec<AbbottReagent>,
) -> (r: AbbottProject)
    ensures
        r.name@ == name@,
        r.control_no_suffix@ == control_no_suffix@,
        r.control_no_default_number@ == control_no_default_number@,
        r.expiry_format@ == "DDMMYYYY"@,
        r.reagents@ == reagents@,
{
    AbbottProject {
        name: String::from_str(name),
        control_no_suffix: String::from_str(control_no_suffix),
        control_no_default_number: String::from_str(control_no_default_number),
        expiry_format: String::from_str("DDMMYYYY"),
        reagents,
    }
}

/// `r` has these fields, the long prefix "G", and exactly one code: the long one when
/// `long`, else the short one.
pub open spec fn reagent_is(
    r: AbbottReagent,
    name: Seq<char>,
    short_prefix: Seq<char>,
    long: bool,
    project_bits: Seq<char>,
    long_trailing: Seq<char>,
    default_sn: Seq<char>,
) -> bool {
    &&& r.name@ == name
    &&& r.short_prefix@ == short_prefix
    &&& r.long_prefix@ == "G"@
    &&& r.generates_long == long
    &&& r.generates_short == !long
    &&& r.project_bits@ == project_bits
    &&& r.long_trailing@ == long_trailing
    &&& r.default_sn@ == default_sn
}

/// `p` has these fields, the expiry mode "DDMMYYYY" and `count` reagents.
pub open spec fn project_is(
    p: AbbottProject,
    name: Seq<char>,
    control_no_suffix: Seq<char>,
    control_no_default_number: Seq<char>,
    count: nat,
) -> bool {
    &&& p.name@ == name
    &&& p.control_no_suffix@ == control_no_suffix
    &&& p.control_no_default_number@ == control_no_default_number
    &&& p.expiry_format@ == "DDMMYYYY"@
    &&& p.reagents@.len() == count
}

/// Each reagent of `p` has exactly one code: the first the long one, the others the
/// short one; all long prefixes are "G" and the expiry mode is "DDMMYYYY".
pub open spec fn first_reagent_long(p: AbbottProject) -> bool {
    &&& p.expiry_format@ == "DDMMYYYY"@
    &&& forall|j: int|
        0 <= j < p.reagents@.len() ==> {
            &&& (#[trigger] p.reagents@[j]).generates_long == (j == 0)
            &&& p.reagents@[j].generates_short == (j != 0)
            &&& p.reagents@[j].long_prefix@ == "G"@
        }
}

/// The reagents of `p` share one project-bits value of 13 decimal digits.
pub open spec fn shared_bits(p: AbbottProject) -> bool {
    &&& p.reagents@.len() > 0
    &&& p.reagents@[0].project_bits@.len() == 13
    &&& all_digits(p.reagents@[0].project_bits@)
    &&& forall|j: int|
        0 <= j < p.reagents@.len() ==> (#[trigger] p.reagents@[j]).project_bits@
            == p.reagents@[0].project_bits@
}

/// The built-in projects: CTNI and CK-MB with a long and a short code, Myo and BNP with
/// a long and two short codes.
pub fn default_abbott_projects() -> (r: AbbottProjectsConfig)
    ensures
        r.projects@.len() == 4,
        project_is(r.projects@[0], "CTNI"@, "UD00"@, "81307"@, 2),
        reagent_is(
            r.projects@[0].reagents@[0],
            "CTNI 红"@,
            "H"@,
            true,
            "6201010300001"@,
            "H0000162001AAAGOAABTZAAINQABPTEBCAUMDXUWW00000AAAAAAAAAAAAAAAAAAAAAAAAAAAAAA"@,
            "01137"@,
        ),
        reagent_is(
            r.projects@[0].reagents@[1],
            "CTNI 黄"@,
            "H"@,
            false,
            "6201010300001"@,
            ""@,
            "01137"@,
        ),
        project_is(r.projects@[1], "CK-MB"@, "UN24"@, "93880"@, 2),
        reagent_is(
            r.projects@[1].reagents@[0],
            "CK-MB 红"@,
            "H"@,
            true,
            "4712010300001"@,
            "H0000000000AAAAAAAAAAAAAAAAAAAAAAAAAAAAAA00000AAAAAAAAAAAAAAAAAAAAAAAAAAAAAA"@,
            "03157"@,
        ),
        reagent_is(
            r.projects@[1].reagents@[1],
            "CK-MB 黄"@,
            "H"@,
            false,
            "4712010300001"@,
            ""@,
            "06975"@,
        ),
        project_is(r.projects@[2], "Myo"@, "UN24"@, "71084"@, 3),
        reagent_is(
            r.projects@[2].reagents@[0],
            "Myo 红"@,
            "G"@,
            true,
            "4612010300002"@,
            "HJ000000000AAAAAAAAAAAAAAAAAAAAAAAAAAAAAA00000AAAAAAAAAAAAAAAAAAAAAAAAAAAAAA"@,
            "03157"@,
        ),
        reagent_is(
            r.projects@[2].reagents@[1],
            "Myo 黄"@,
            "H"@,
            false,
            "4612010300002"@,
            ""@,
            "02972"@,
        ),
        reagent_is(
            r.projects@[2].reagents@[2],
            "Myo 绿"@,
            "J"@,
            false,
            "4612010300002"@,
            ""@,
            "03824"@,
        ),
        project_is(r.projects@[3], "BNP"@, "UN24"@, "71084"@, 3),
        reagent_is(
            r.projects@[3].reagents@[0],
            "BNP 红"@,
            "G"@,
            true,
            "0000000000000"@,
            "H0000000000AAAAAAAAAAAAAAAAAAAAAAAAAAAAAA00000AAAAAAAAAAAAAAAAAAAAAAAAAAAAAA"@,
            "03157"@,
        ),
        reagent_is(
            r.projects@[3].reagents@[1],
            "BNP 黄"@,
            "H"@,
            false,
            "0000000000000"@,
            ""@,
            "02972"@,
        ),
        reagent_is(
            r.projects@[3].reagents@[2],
            "BNP 绿"@,
            "J"@,
            false,
            "0000000000000"@,
            ""@,
            "03824"@,
        ),
        forall|i: int| 0 <= i < 4 ==> first_reagent_long(#[trigger] r.projects@[i]),
        forall|i: int| 0 <= i < 4 ==> shared_bits(#[trigger] r.projects@[i]),
{
    let ctni = project(
        "CTNI",
        "UD00",
        "81307",
        vec![
            reagent("CTNI 红", "H", true, "6201010300001",
                "H0000162001AAAGOAABTZAAINQABPTEBCAUMDXUWW00000AAAAAAAAAAAAAAAAAAAAAAAAAAAAAA",
                "01137"),
            reagent("CTNI 黄", "H", false, "6201010300001", "", "01137"),
        ],
    );
    let ckmb = project(
        "CK-MB",
        "UN24",
        "93880",
        vec![
            reagent("CK-MB 红", "H", true, "4712010300001",
                "H0000000000AAAAAAAAAAAAAAAAAAAAAAAAAAAAAA00000AAAAAAAAAAAAAAAAAAAAAAAAAAAAAA",
                "03157"),
            reagent("CK-MB 黄", "H", false, "4712010300001", "", "06975"),
        ],
    );
    let myo = project(
        "Myo",
        "UN24",
        "71084",
        vec![
            reagent("Myo 红", "G", true, "4612010300002",
                "HJ000000000AAAAAAAAAAAAAAAAAAAAAAAAAAAAAA00000AAAAAAAAAAAAAAAAAAAAAAAAAAAAAA",
                "03157"),
            reagent("Myo 黄", "H", false, "4612010300002", "", "02972"),
            reagent("Myo 绿", "J", false, "4612010300002", "", "03824"),
        ],
    );
    let bnp = project(
        "BNP",
        "UN24",
        "71084",
        vec![
            reagent("BNP 红", "G", true, "0000000000000",
                "H0000000000AAAAAAAAAAAAAAAAAAAAAAAAAAAAAA00000AAAAAAAAAAAAAAAAAAAAAAAAAAAAAA",
                "03157"),
            reagent("BNP 黄", "H", false, "0000000000000", "", "02972"),
            reagent("BNP 绿", "J", false, "0000000000000", "", "03824"),
        ],
    );
    let r = AbbottProjectsConfig { projects: vec![ctni, ckmb, myo, bnp] };
    assert(first_reagent_long(r.projects@[0]));
    assert(first_reagent_long(r.projects@[1]));
    assert(first_reagent_long(r.projects@[2]));
    assert(first_reagent_long(r.projects@[3]));
    proof {
        reveal_strlit("6201010300001");
        reveal_strlit("4712010300001");
        reveal_strlit("4612010300002");
        reveal_strlit("0000000000000");
    }
    assert(shared_bits(r.projects@[0]));
    assert(shared_bits(r.projects@[1]));
    assert(shared_bits(r.projects@[2]));
    assert(shared_bits(r.projects@[3]));
    r
}

} // verus!
