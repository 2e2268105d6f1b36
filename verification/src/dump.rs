use vstd::prelude::*;
use crate::screen::{lcd_rows, rows_of};

verus! {

/// The text that `pretty_hex::config_hex` makes of `bytes` under a
/// `HexConfig` with these five fields.
pub uninterp spec fn hex_dump_text(
    bytes: Seq<u8>,
    title: bool,
    ascii: bool,
    width: usize,
    group: usize,
    chunk: usize,
) -> Seq<char>;

/// `pretty_hex::config_hex` on `bytes` with the configuration built from
/// the five values. Its text is named, not stated: the same bytes and
/// configuration give the same text. The `requires` keeps the product
/// `group * chunk`, which the crate computes, from overflowing.
#[verifier::external_body]
fn hex_dump(bytes: &[u8], title: bool, ascii: bool, width: usize, group: usize, chunk: usize) -> (r: String)
    requires
        group * chunk <= usize::MAX,
    ensures
        r@ == hex_dump_text(bytes@, title, ascii, width, group, chunk),
{
    pretty_hex::config_hex(&bytes, pretty_hex::HexConfig { title, ascii, width, group, chunk })
}

/// A memory region as the bus inspector shows it: a length header, then
/// sixteen bytes a line in groups of four, without a text column.
pub fn memory_dump(bytes: &[u8]) -> (r: String)
    ensures
        r@ == hex_dump_text(bytes@, true, false, 16, 4, 1),
{
    hex_dump(bytes, true, false, 16, 4, 1)
}

/// The picture as the display inspector shows it: the colour numbers of one
/// line of pixels to a line of text, no header and no text column.
pub fn lcd_dump(lcd: &[[u8; 144]; 160]) -> (r: String)
    ensures
        r@ == hex_dump_text(rows_of(*lcd), false, false, 160, 160, 1),
{
    let rows = lcd_rows(lcd);
    hex_dump(rows.as_slice(), false, false, 160, 160, 1)
}

} // verus!
