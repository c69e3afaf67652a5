//! The settings of one render and the remembered sign-in.
use vstd::prelude::*;

verus! {

/// The parameters of one barcode render.
///
/// The option indices select from fixed tables (see `render`); an index outside a table
/// selects that table's default. A physical size of zero keeps the rendered size.
#[derive(Debug, Clone)]
pub struct Config {
    /// The payload text.
    pub content: String,
    pub format_index: usize,
    pub scale_index: usize,
    pub rotate_index: usize,
    /// The column count less one.
    pub columns_index: usize,
    pub eclevel_index: usize,
    /// Target width in micrometres.
    pub width_um: u32,
    /// Target height in micrometres.
    pub height_um: u32,
    pub abbott_mode: bool,
    pub abbott_project_index: usize,
}

impl Default for Config {
    fn default() -> (r: Config)
        ensures
            r.content@ == "12345678"@,
            r.format_index == 0,
            r.scale_index == 1,
            r.rotate_index == 0,
            r.columns_index == 1,
            r.eclevel_index == 2,
            r.width_um == 0,
            r.height_um == 0,
            !r.abbott_mode,
            r.abbott_project_index == 0,
    {
        Config {
            content: String::from_str("12345678"),
            format_index: 0,
            scale_index: 1,
            rotate_index: 0,
            columns_index: 1,
            eclevel_index: 2,
            width_um: 0,
            height_um: 0,
            abbott_mode: false,
            abbott_project_index: 0,
        }
    }
}

/// The remembered sign-in of the reagent mode.
#[derive(Debug, Clone)]
pub struct AuthConfig {
    pub remember: bool,
    pub username: String,
    pub password: String,
}

impl Default for AuthConfig {
    fn default() -> (r: AuthConfig)
        ensures
            !r.remember,
            r.username@.len() == 0,
            r.password@.len() == 0,
    {
        AuthConfig { remember: false, username: String::new(), password: String::new() }
    }
}

} // verus!
