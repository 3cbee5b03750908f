//! Titles shown on the outer border of a screen.
use vstd::prelude::*;

verus! {

/// The product's name, as shown in window titles.
pub const PRODUCT: &'static str = "FutureOS";

/// The product's version, as shown in window titles.
pub const VERSION: &'static str = "0.1.0";

/// The title of a screen named `title`: `[FutureOS v<version> – <title>]`.
pub open spec fn window_title(title: Seq<char>) -> Seq<char> {
    "["@ + PRODUCT@ + " v"@ + VERSION@ + " – "@ + title + "]"@
}

/// The title of the product alone: `[FutureOS v<version>]`.
pub open spec fn default_title() -> Seq<char> {
    "["@ + PRODUCT@ + " v"@ + VERSION@ + "]"@
}

pub fn get_window_title(title: &str) -> (r: String)
    ensures
        r@ == window_title(title@),
{
    let mut r = String::from_str("[");
    r.append(PRODUCT);
    r.append(" v");
    r.append(VERSION);
    r.append(" – ");
    r.append(title);
    r.append("]");
    r
}

pub fn get_default_title() -> (r: String)
    ensures
        r@ == default_title(),
{
    let mut r = String::from_str("[");
    r.append(PRODUCT);
    r.append(" v");
    r.append(VERSION);
    r.append("]");
    r
}

} // verus!
