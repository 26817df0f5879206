use vstd::prelude::*;
use vstd::string::*;

verus! {

/// A character outside ASCII.
pub open spec fn non_ascii(c: char) -> bool {
    c as u32 > 0x7f
}

/// Check if text contains Arabic/non-ASCII characters
pub fn has_non_ascii(text: &str) -> (r: bool)
    ensures
        r == exists|i: int| 0 <= i < text@.len() && non_ascii(#[trigger] text@[i]),
{
    let n = text.unicode_len();
    let mut i: usize = 0;
    while i < n
        invariant
            n == text@.len(),
            0 <= i <= n,
            forall|k: int| 0 <= k < i ==> !non_ascii(#[trigger] text@[k]),
        decreases n - i,
    {
        let c = text.get_char(i);
        if c as u32 > 0x7f {
            return true;
        }
        i = i + 1;
    }
    false
}

/// The font a receipt's text line is written in.
#[derive(Clone, Copy, Debug, PartialEq, Eq, Structural)]
pub enum PdfFont {
    /// The Arabic-capable font found on the machine, at 9 pt
    Arabic,
    /// Courier at 8 pt
    Courier,
    /// Courier bold at 8 pt
    CourierBold,
}

/// The font for a text line: the Arabic font for non-ASCII text when one was
/// found, else Courier, bold for emphasized text.
pub fn pdf_font_for(content: &str, emphasis: bool, arabic_available: bool) -> (f: PdfFont)
    ensures
        f == (if arabic_available && exists|i: int| 0 <= i < content@.len() && non_ascii(
            #[trigger] content@[i],
        ) {
            PdfFont::Arabic
        } else if emphasis {
            PdfFont::CourierBold
        } else {
            PdfFont::Courier
        }),
{
    if has_non_ascii(content) && arabic_available {
        PdfFont::Arabic
    } else if emphasis {
        PdfFont::CourierBold
    } else {
        PdfFont::Courier
    }
}

} // verus!
