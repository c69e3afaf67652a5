//! Reagent projects and the barcode payloads built for them.
use vstd::prelude::*;
use crate::config::Config;
use crate::expiry::{encode_expiry, expiry_code};
use crate::text::{append_decimal, decimal2, push_char};
use crate::render::{can_finish, generate_barcode, is_finished, target_size, Raster, RenderError};

verus! {

/// One barcode-bearing reagent of a project.
#[derive(Debug, Clone)]
pub struct AbbottReagent {
    pub name: String,
    /// Prefix of the short payload (e.g. "H", "J").
    pub short_prefix: String,
    /// Prefix of the long payload (e.g. "G").
    pub long_prefix: String,
    /// Whether this reagent has a long barcode.
    pub generates_long: bool,
    /// Whether this reagent has a short barcode.
    pub generates_short: bool,
    /// Project identification bits of the long payload.
    pub project_bits: String,
    /// Fixed data that ends the long payload.
    pub long_trailing: String,
    /// Serial number offered for this reagent's slot.
    pub default_sn: String,
}

/// A named group of reagents that share a control-number suffix and an expiry mode.
#[derive(Debug, Clone)]
pub struct AbbottProject {
    pub name: String,
    /// Suffix after the control number (e.g. "UD00", "UN24").
    pub control_no_suffix: String,
    /// Control number offered by default (e.g. "80001").
    pub control_no_default_number: String,
    /// Expiry mode: "DDMMYYYY", or "00DDMMYYYY" for the zero-padded form.
    pub expiry_format: String,
    pub reagents: Vec<AbbottReagent>,
}

/// The catalog of known projects.
#[derive(Debug, Clone)]
pub struct AbbottProjectsConfig {
    pub projects: Vec<AbbottProject>,
}

/// The bits of a long payload: the override when given and not empty, else the
/// reagent's own.
pub open spec fn chosen_bits(reagent: AbbottReagent, bits_override: Option<Seq<char>>) -> Seq<
    char,
> {
    match bits_override {
        Some(b) => if b.len() > 0 {
            b
        } else {
            reagent.project_bits@
        },
        None => reagent.project_bits@,
    }
}

/// The view of an optional text.
pub open spec fn opt_view(o: Option<&str>) -> Option<Seq<char>> {
    match o {
        Some(s) => Some(s@),
        None => None,
    }
}

/// The short payload: `A`, serial number, short prefix, control number, suffix.
pub open spec fn short_content(
    sn: Seq<char>,
    reagent: AbbottReagent,
    control_no: Seq<char>,
    suffix: Seq<char>,
) -> Seq<char> {
    seq!['A'] + sn + reagent.short_prefix@ + control_no + suffix
}

/// The long payload: `A`, serial number, long prefix, control number, suffix, encoded
/// expiry, bits, trailing data.
pub open spec fn long_content(
    sn: Seq<char>,
    reagent: AbbottReagent,
    control_no: Seq<char>,
    suffix: Seq<char>,
    expiry: Seq<char>,
    bits_override: Option<Seq<char>>,
) -> Seq<char> {
    seq!['A'] + sn + reagent.long_prefix@ + control_no + suffix + expiry + chosen_bits(
        reagent,
        bits_override,
    ) + reagent.long_trailing@
}

/// Builds the short payload of a reagent.
pub fn build_short_content(
    sn: &str,
    reagent: &AbbottReagent,
    control_no_number: &str,
    control_no_suffix: &str,
) -> (r: String)
    ensures
        r@ == short_content(sn@, *reagent, control_no_number@, control_no_suffix@),
{
    let mut out = String::from_str("A");
    out.append(sn);
    out.append(reagent.short_prefix.as_str());
    out.append(control_no_number);
    out.append(control_no_suffix);
    proof {
        reveal_strlit("A");
        assert(out@ =~= short_content(sn@, *reagent, control_no_number@, control_no_suffix@));
    }
    out
}

/// Builds the long payload of a reagent; a given, non-empty `project_bits_override`
/// takes the place of the reagent's bits.
pub fn build_long_content(
    sn: &str,
    reagent: &AbbottReagent,
    control_no_number: &str,
    control_no_suffix: &str,
    expiry_encoded: &str,
    project_bits_override: Option<&str>,
) -> (r: String)
    ensures
        r@ == long_content(
            sn@,
            *reagent,
            control_no_number@,
            control_no_suffix@,
            expiry_encoded@,
            opt_view(project_bits_override),
        ),
{
    let bits: &str = match project_bits_override {
        Some(b) => if b.is_empty() {
            reagent.project_bits.as_str()
        } else {
            b
        },
        None => reagent.project_bits.as_str(),
    };
    let mut out = String::from_str("A");
    out.append(sn);
    out.append(reagent.long_prefix.as_str());
    out.append(control_no_number);
    out.append(control_no_suffix);
    out.append(expiry_encoded);
    out.append(bits);
    out.append(reagent.long_trailing.as_str());
    proof {
        reveal_strlit("A");
        assert(out@ =~= long_content(
            sn@,
            *reagent,
            control_no_number@,
            control_no_suffix@,
            expiry_encoded@,
            opt_view(project_bits_override),
        ));
    }
    out
}

/// `c` renders `content` as a short code: compact PDF417, scale 2, rotated 90 degrees,
/// 2 columns, error correction 6, 7.4 cm by 1.8 cm.
pub open spec fn is_short_config(c: Config, content: Seq<char>) -> bool {
    &&& c.content@ == content
    &&& c.format_index == 0
    &&& c.scale_index == 1
    &&& c.rotate_index == 1
    &&& c.columns_index == 1
    &&& c.eclevel_index == 6
    &&& c.width_um == 74000
    &&& c.height_um == 18000
    &&& !c.abbott_mode
    &&& c.abbott_project_index == 0
}

/// `c` renders `content` as a long code: PDF417, scale 2, not rotated, 4 columns,
/// error correction 2, 4.0 cm by 2.0 cm.
pub open spec fn is_long_config(c: Config, content: Seq<char>) -> bool {
    &&& c.content@ == content
    &&& c.format_index == 1
    &&& c.scale_index == 1
    &&& c.rotate_index == 0
    &&& c.columns_index == 3
    &&& c.eclevel_index == 2
    &&& c.width_um == 40000
    &&& c.height_um == 20000
    &&& !c.abbott_mode
    &&& c.abbott_project_index == 0
}

/// The render settings of a short code.
pub fn short_config(content: &str) -> (r: Config)
    ensures
        is_short_config(r, content@),
{
    Config {
        content: String::from_str(content),
        format_index: 0,
        scale_index: 1,
        rotate_index: 1,
        columns_index: 1,
        eclevel_index: 6,
        width_um: 74000,
        height_um: 18000,
        abbott_mode: false,
        abbott_project_index: 0,
    }
}

/// The render settings of a long code.
pub fn long_config(content: &str) -> (r: Config)
    ensures
        is_long_config(r, content@),
{
    Config {
        content: String::from_str(content),
        format_index: 1,
        scale_index: 1,
        rotate_index: 0,
        columns_index: 3,
        eclevel_index: 2,
        width_um: 40000,
        height_um: 20000,
        abbott_mode: false,
        abbott_project_index: 0,
    }
}

/// Which of a reagent's two barcodes an entry is.
#[derive(Debug, Clone, Copy, PartialEq, Eq, Structural)]
pub enum CodeKind {
    Long,
    Short,
}

/// One barcode of a project batch, before rendering.
#[derive(Debug, Clone)]
pub struct PlannedBarcode {
    pub kind: CodeKind,
    pub label: String,
    /// The render settings; their content is the payload.
    pub config: Config,
}

/// The label of a reagent's barcode: its name, then "长码" (long) or "短码" (short).
pub open spec fn code_label(reagent: AbbottReagent, kind: CodeKind) -> Seq<char> {
    match kind {
        CodeKind::Long => reagent.name@ + " 长码"@,
        CodeKind::Short => reagent.name@ + " 短码"@,
    }
}

/// The serial number of reagent `i`: the `i`-th given one, empty when there is none.
pub open spec fn serial_at(sns: Seq<String>, i: int) -> Seq<char> {
    if 0 <= i < sns.len() {
        sns[i]@
    } else {
        Seq::empty()
    }
}

/// A planned barcode as kind, label and payload.
pub type PlanEntry = (CodeKind, Seq<char>, Seq<char>);

/// The barcodes of reagent `i`: its long code if it has one, then its short code if it
/// has one.
pub open spec fn reagent_entries(
    project: AbbottProject,
    i: int,
    sns: Seq<String>,
    control_no: Seq<char>,
    expiry: Seq<char>,
    bits_override: Seq<char>,
) -> Seq<PlanEntry> {
    let r = project.reagents@[i];
    let sn = serial_at(sns, i);
    let suffix = project.control_no_suffix@;
    let long = long_content(
        sn,
        r,
        control_no,
        suffix,
        expiry_code(expiry, project.expiry_format@),
        Some(bits_override),
    );
    let short = short_content(sn, r, control_no, suffix);
    (if r.generates_long {
        seq![(CodeKind::Long, code_label(r, CodeKind::Long), long)]
    } else {
        seq![]
    }) + (if r.generates_short {
        seq![(CodeKind::Short, code_label(r, CodeKind::Short), short)]
    } else {
        seq![]
    })
}

/// The barcodes of the first `n` reagents, in catalog order.
pub open spec fn project_entries(
    project: AbbottProject,
    n: int,
    sns: Seq<String>,
    control_no: Seq<char>,
    expiry: Seq<char>,
    bits_override: Seq<char>,
) -> Seq<PlanEntry>
    decreases n,
{
    if n <= 0 {
        seq![]
    } else {
        project_entries(project, n - 1, sns, control_no, expiry, bits_override)
            + reagent_entries(project, n - 1, sns, control_no, expiry, bits_override)
    }
}

impl PlannedBarcode {
    /// The entry as kind, label and payload.
    pub open spec fn entry(&self) -> PlanEntry {
        (self.kind, self.label@, self.config.content@)
    }

    /// The render settings are those of the entry's kind.
    pub open spec fn wf(&self) -> bool {
        match self.kind {
            CodeKind::Long => is_long_config(self.config, self.config.content@),
            CodeKind::Short => is_short_config(self.config, self.config.content@),
        }
    }
}

/// `plan` lists exactly `entries`, each with the settings of its kind.
pub open spec fn plan_matches(plan: Seq<PlannedBarcode>, entries: Seq<PlanEntry>) -> bool {
    &&& plan.len() == entries.len()
    &&& forall|k: int| 0 <= k < plan.len() ==> #[trigger] plan[k].entry() == entries[k]
    &&& forall|k: int| 0 <= k < plan.len() ==> (#[trigger] plan[k]).wf()
}

fn labelled(reagent: &AbbottReagent, kind: CodeKind) -> (r: String)
    ensures
        r@ == code_label(*reagent, kind),
{
    let mut label = reagent.name.clone();
    match kind {
        CodeKind::Long => label.append(" 长码"),
        CodeKind::Short => label.append(" 短码"),
    }
    label
}

/// The whole batch of a project, reagents in catalog order.
pub open spec fn batch_entries(
    project: AbbottProject,
    sns: Seq<String>,
    control_no: Seq<char>,
    expiry: Seq<char>,
    bits_override: Seq<char>,
) -> Seq<PlanEntry> {
    project_entries(project, project.reagents@.len() as int, sns, control_no, expiry, bits_override)
}

/// In a project of three reagents where only the first has a long code and all three
/// have a short code, the batch is the first reagent's long code, then the short codes
/// of the first, second and third reagents.
pub proof fn lemma_batch_order_three_reagents(
    project: AbbottProject,
    sns: Seq<String>,
    control_no: Seq<char>,
    expiry: Seq<char>,
    bits_override: Seq<char>,
)
    requires
        project.reagents@.len() == 3,
        project.reagents@[0].generates_long,
        !project.reagents@[1].generates_long,
        !project.reagents@[2].generates_long,
        forall|j: int| 0 <= j < 3 ==> (#[trigger] project.reagents@[j]).generates_short,
    ensures
        ({
            let r = project.reagents@;
            let suffix = project.control_no_suffix@;
            let code = expiry_code(expiry, project.expiry_format@);
            batch_entries(project, sns, control_no, expiry, bits_override) == seq![
                (
                    CodeKind::Long,
                    code_label(r[0], CodeKind::Long),
                    long_content(
                        serial_at(sns, 0),
                        r[0],
                        control_no,
                        suffix,
                        code,
                        Some(bits_override),
                    ),
                ),
                (
                    CodeKind::Short,
                    code_label(r[0], CodeKind::Short),
                    short_content(serial_at(sns, 0), r[0], control_no, suffix),
                ),
                (
                    CodeKind::Short,
                    code_label(r[1], CodeKind::Short),
                    short_content(serial_at(sns, 1), r[1], control_no, suffix),
                ),
                (
                    CodeKind::Short,
                    code_label(r[2], CodeKind::Short),
                    short_content(serial_at(sns, 2), r[2], control_no, suffix),
                ),
            ]
        }),
{
    assert(project.reagents@[1].generates_short);
    assert(project.reagents@[2].generates_short);
    reveal_with_fuel(project_entries, 4);
    let e0 = project_entries(project, 0, sns, control_no, expiry, bits_override);
    let e1 = project_entries(project, 1, sns, control_no, expiry, bits_override);
    let e2 = project_entries(project, 2, sns, control_no, expiry, bits_override);
    let e3 = project_entries(project, 3, sns, control_no, expiry, bits_override);
    assert(e0 =~= seq![]);
    assert(e1 =~= e0 + reagent_entries(project, 0, sns, control_no, expiry, bits_override));
    assert(e2 =~= e1 + reagent_entries(project, 1, sns, control_no, expiry, bits_override));
    assert(e3 =~= e2 + reagent_entries(project, 2, sns, control_no, expiry, bits_override));
    assert(e3 =~= batch_entries(project, sns, control_no, expiry, bits_override));
}

/// Lists the barcodes of a project batch in order: reagents in catalog order, each
/// with its long code first, then its short code. `sns[i]` is the serial number of
/// reagent `i` (empty when missing); a non-empty `project_bits_override` replaces the
/// bits of every long payload.
pub fn plan_abbott_barcodes(
    project: &AbbottProject,
    sns: &[String],
    control_no_number: &str,
    expiry: &str,
    project_bits_override: &str,
) -> (r: Vec<PlannedBarcode>)
    ensures
        plan_matches(
            r@,
            batch_entries(*project, sns@, control_no_number@, expiry@, project_bits_override@),
        ),
{
    let expiry_encoded = encode_expiry(expiry, project.expiry_format.as_str());
    let bits_override: Option<&str> = if project_bits_override.is_empty() {
        None
    } else {
        Some(project_bits_override)
    };
    let mut items: Vec<PlannedBarcode> = Vec::new();
    let mut i: usize = 0;
    while i < project.reagents.len()
        invariant
            0 <= i <= project.reagents@.len(),
            expiry_encoded@ == expiry_code(expiry@, project.expiry_format@),
            opt_view(bits_override) == (if project_bits_override@.len() == 0 {
                None
            } else {
                Some(project_bits_override@)
            }),
            plan_matches(
                items@,
                project_entries(
                    *project,
                    i as int,
                    sns@,
                    control_no_number@,
                    expiry@,
                    project_bits_override@,
                ),
            ),
        decreases project.reagents@.len() - i,
    {
        let reagent = &project.reagents[i];
        let sn: &str = if i < sns.len() {
            sns[i].as_str()
        } else {
            ""
        };
        proof {
            reveal_strlit("");
            assert(sn@ == serial_at(sns@, i as int));
        }
        let ghost before = items@;
        if reagent.generates_long {
            let content = build_long_content(
                sn,
                reagent,
                control_no_number,
                project.control_no_suffix.as_str(),
                expiry_encoded.as_str(),
                bits_override,
            );
            let config = long_config(content.as_str());
            let label = labelled(reagent, CodeKind::Long);
            items.push(PlannedBarcode { kind: CodeKind::Long, label, config });
        }
        if reagent.generates_short {
            let content = build_short_content(
                sn,
                reagent,
                control_no_number,
                project.control_no_suffix.as_str(),
            );
            let config = short_config(content.as_str());
            let label = labelled(reagent, CodeKind::Short);
            items.push(PlannedBarcode { kind: CodeKind::Short, label, config });
        }
        proof {
            let added = reagent_entries(
                *project,
                i as int,
                sns@,
                control_no_number@,
                expiry@,
                project_bits_override@,
            );
            let done = project_entries(
                *project,
                i as int,
                sns@,
                control_no_number@,
                expiry@,
                project_bits_override@,
            );
            assert(project_entries(
                *project,
                i + 1,
                sns@,
                control_no_number@,
                expiry@,
                project_bits_override@,
            ) == done + added);
            assert forall|k: int| 0 <= k < items@.len() implies #[trigger] items@[k].entry() == (
            done + added)[k] by {
                if k < before.len() {
                    assert(items@[k] == before[k]);
                }
            }
        }
        i = i + 1;
    }
    items
}

/// One rendered barcode of a project batch.
#[derive(Debug, Clone)]
pub struct AbbottBarcodeItem {
    pub label: String,
    /// The payload.
    pub content: String,
    pub gray_image: Raster,
}

/// `rendered` holds the engine's outcome for the planned barcodes in order, up to the
/// first failure or to the end, each raster fit to be finished.
pub open spec fn renders_plan(
    plan: Seq<PlannedBarcode>,
    rendered: Seq<Result<Raster, RenderError>>,
) -> bool {
    &&& rendered.len() <= plan.len()
    &&& rendered.len() < plan.len() ==> exists|k: int|
        0 <= k < rendered.len() && (#[trigger] rendered[k]) is Err
    &&& forall|k: int|
        0 <= k < rendered.len() ==> ((#[trigger] rendered[k]) matches Ok(raw) ==> can_finish(
            plan[k].config,
            raw,
        ))
}

/// `item` is planned barcode `p` finished from the engine's raster `raw`.
pub open spec fn item_of(item: AbbottBarcodeItem, p: PlannedBarcode, raw: Raster) -> bool {
    &&& item.label@ == p.label@
    &&& item.content@ == p.config.content@
    &&& is_finished(item.gray_image, raw, target_size(p.config.width_um, p.config.height_um))
    &&& item.gray_image.wf()
}

/// Completes a project batch from the engine's outcome for each planned barcode. All or
/// nothing: when any render failed, the result is the first failure and no item.
pub fn generate_abbott_barcodes(
    plan: &Vec<PlannedBarcode>,
    rendered: Vec<Result<Raster, RenderError>>,
) -> (r: Result<Vec<AbbottBarcodeItem>, RenderError>)
    requires
        renders_plan(plan@, rendered@),
    ensures
        r is Err <==> exists|k: int| 0 <= k < rendered@.len() && (#[trigger] rendered@[k]) is Err,
        r matches Err(e) ==> exists|k: int|
            0 <= k < rendered@.len() && #[trigger] rendered@[k] == Err::<Raster, RenderError>(e)
                && forall|j: int| 0 <= j < k ==> (#[trigger] rendered@[j]) is Ok,
        r matches Ok(items) ==> {
            &&& items@.len() == plan@.len()
            &&& forall|k: int|
                0 <= k < items@.len() ==> item_of(
                    #[trigger] items@[k],
                    plan@[k],
                    rendered@[k]->Ok_0,
                )
        },
{
    let n = rendered.len();
    let mut rest = rendered;
    let mut items: Vec<AbbottBarcodeItem> = Vec::new();
    let mut k: usize = 0;
    while k < n
        invariant
            n == rendered@.len(),
            n <= plan@.len(),
            0 <= k <= n,
            rest@ == rendered@.skip(k as int),
            renders_plan(plan@, rendered@),
            items@.len() == k,
            forall|j: int| 0 <= j < k ==> (#[trigger] rendered@[j]) is Ok,
            forall|j: int|
                0 <= j < k ==> item_of(#[trigger] items@[j], plan@[j], rendered@[j]->Ok_0),
        decreases n - k,
    {
        assert(rest@[0] == rendered@[k as int]);
        let outcome = rest.remove(0);
        match outcome {
            Err(e) => {
                return Err(e);
            },
            Ok(raw) => {
                let p = &plan[k];
                let result = generate_barcode(&p.config, raw);
                items.push(
                    AbbottBarcodeItem {
                        label: p.label.clone(),
                        content: p.config.content.clone(),
                        gray_image: result.gray_image,
                    },
                );
            },
        }
        assert(rest@ =~= rendered@.skip(k + 1));
        k = k + 1;
    }
    Ok(items)
}

/// What the form of a project starts with.
#[derive(Debug, Clone)]
pub struct ProjectDefaults {
    pub reagent_count: usize,
    pub control_no: String,
    /// The bits of the first reagent that has a long code, if one has.
    pub project_bits: Option<String>,
    /// The serial numbers of the three reagent slots, empty past the last reagent.
    pub sns: Vec<String>,
}

/// The serial number that slot `k` of `project` starts with.
pub open spec fn default_serial(project: AbbottProject, k: int) -> Seq<char> {
    if 0 <= k < project.reagents@.len() {
        project.reagents@[k].default_sn@
    } else {
        Seq::empty()
    }
}

/// The defaults of a project's form: reagent count, control number, the bits of its
/// first long-code reagent and the serial numbers of the first three reagents.
pub fn project_defaults(project: &AbbottProject) -> (r: ProjectDefaults)
    ensures
        r.reagent_count == project.reagents@.len(),
        r.control_no@ == project.control_no_default_number@,
        r.project_bits is None <==> forall|j: int|
            0 <= j < project.reagents@.len() ==> !(#[trigger] project.reagents@[j]).generates_long,
        r.project_bits matches Some(b) ==> exists|j: int|
            0 <= j < project.reagents@.len() && (#[trigger] project.reagents@[j]).generates_long
                && b@ == project.reagents@[j].project_bits@ && forall|i: int|
                0 <= i < j ==> !(#[trigger] project.reagents@[i]).generates_long,
        r.sns@.len() == 3,
        forall|k: int| 0 <= k < 3 ==> (#[trigger] r.sns@[k])@ == default_serial(*project, k),
{
    let n = project.reagents.len();
    let mut bits: Option<String> = None;
    let mut j: usize = 0;
    while j < n
        invariant_except_break
            bits is None,
        invariant
            n == project.reagents@.len(),
            0 <= j <= n,
            forall|i: int| 0 <= i < j ==> !(#[trigger] project.reagents@[i]).generates_long,
        ensures
            bits is None ==> j == n,
            bits matches Some(b) ==> j < n && project.reagents@[j as int].generates_long
                && b@ == project.reagents@[j as int].project_bits@,
        decreases n - j,
    {
        if project.reagents[j].generates_long {
            bits = Some(project.reagents[j].project_bits.clone());
            break;
        }
        j = j + 1;
    }
    let mut sns: Vec<String> = Vec::new();
    let mut k: usize = 0;
    while k < 3
        invariant
            n == project.reagents@.len(),
            0 <= k <= 3,
            sns@.len() == k,
            forall|m: int| 0 <= m < k ==> (#[trigger] sns@[m])@ == default_serial(*project, m),
        decreases 3 - k,
    {
        if k < n {
            sns.push(project.reagents[k].default_sn.clone());
        } else {
            sns.push(String::new());
        }
        k = k + 1;
    }
    ProjectDefaults {
        reagent_count: n,
        control_no: project.control_no_default_number.clone(),
        project_bits: bits,
        sns,
    }
}

/// `label` with every space and slash made an underscore.
pub open spec fn file_safe(label: Seq<char>) -> Seq<char> {
    label.map_values(|c: char| if c == ' ' || c == '/' { '_' } else { c })
}

/// The file name of the item at `index` of an exported batch: its 1-based number in at
/// least two digits, an underscore, the file-safe label and `.png`.
pub open spec fn export_name(index: nat, label: Seq<char>) -> Seq<char> {
    decimal2(index + 1) + seq!['_'] + file_safe(label) + seq!['.', 'p', 'n', 'g']
}

/// The file name under which the item at `index` of a batch is exported.
pub fn export_file_name(index: usize, label: &str) -> (r: String)
    requires
        index < usize::MAX,
    ensures
        r@ == export_name(index as nat, label@),
{
    let number = index as u64 + 1;
    let mut out = String::new();
    if number < 10 {
        push_char(&mut out, '0');
    }
    append_decimal(&mut out, number);
    push_char(&mut out, '_');
    let ghost head = out@;
    let n = label.unicode_len();
    let mut i: usize = 0;
    while i < n
        invariant
            n == label@.len(),
            0 <= i <= n,
            out@ == head + file_safe(label@.take(i as int)),
        decreases n - i,
    {
        let c = label.get_char(i);
        let safe = if c == ' ' || c == '/' {
            '_'
        } else {
            c
        };
        push_char(&mut out, safe);
        assert(file_safe(label@.take(i + 1)) =~= file_safe(label@.take(i as int)).push(safe));
        i = i + 1;
    }
    assert(label@.take(n as int) =~= label@);
    push_char(&mut out, '.');
    push_char(&mut out, 'p');
    push_char(&mut out, 'n');
    push_char(&mut out, 'g');
    assert(out@ =~= export_name(index as nat, label@));
    out
}

} // verus!
