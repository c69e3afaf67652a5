//! Barcode payloads for reagent lots: a compact lot token codec, the payload
//! builders for reagent projects, and the rendering pipeline that gives each
//! payload its physical size.
use vstd::prelude::*;

pub mod expiry;
pub mod abbott;
pub mod catalog;
pub mod config;
pub mod field;
pub mod lot_token;
pub mod render;
pub mod text;

verus! {

/// The sum of two integers.
pub fn add(a: i32, b: i32) -> (r: i32)
    requires
        i32::MIN <= a + b <= i32::MAX,
    ensures
        r == a + b,
{
    a + b
}

/// The greeting `Hello, <name>!`.
pub fn greet(name: &str) -> (r: String)
    ensures
        r@ == "Hello, "@ + name@ + "!"@,
{
    let mut out = String::from_str("Hello, ");
    out.append(name);
    out.append("!");
    out
}

} // verus!
