//! Paths to the libraries named by the synthesized code.

use vstd::prelude::*;

verus! {

/// The path text of the anyhow crate.
pub open spec fn anyhow_path_text() -> Seq<char> {
    "::anyhow"@
}

pub fn anyhow_path() -> (r: String)
    ensures
        r@ == anyhow_path_text(),
{
    String::from_str("::anyhow")
}

/// The path text of the blockz crate.
pub open spec fn blockz_path_text() -> Seq<char> {
    "::blockz"@
}

pub fn blockz_path() -> (r: String)
    ensures
        r@ == blockz_path_text(),
{
    String::from_str("::blockz")
}

/// The path text of the envy crate.
pub open spec fn envy_path_text() -> Seq<char> {
    "::envy"@
}

pub fn envy_path() -> (r: String)
    ensures
        r@ == envy_path_text(),
{
    String::from_str("::envy")
}

/// The path text of the once_cell crate.
pub open spec fn once_cell_path_text() -> Seq<char> {
    "::once_cell"@
}

pub fn once_cell_path() -> (r: String)
    ensures
        r@ == once_cell_path_text(),
{
    String::from_str("::once_cell")
}

/// The path text of the tokio crate.
pub open spec fn tokio_path_text() -> Seq<char> {
    "::tokio"@
}

pub fn tokio_path() -> (r: String)
    ensures
        r@ == tokio_path_text(),
{
    String::from_str("::tokio")
}

/// The path text of the standard library.
pub open spec fn std_path_text() -> Seq<char> {
    "::std"@
}

pub fn std_path() -> (r: String)
    ensures
        r@ == std_path_text(),
{
    String::from_str("::std")
}

} // verus!
