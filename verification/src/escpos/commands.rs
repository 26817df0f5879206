use vstd::prelude::*;

verus! {

/// Character font selected by the host.
#[derive(Clone, Copy, Debug, PartialEq, Eq, Structural)]
pub enum Font {
    FontA,
    FontB,
}

/// Horizontal alignment of printed text.
#[derive(Clone, Copy, Debug, PartialEq, Eq, Structural)]
pub enum Justification {
    Left,
    Center,
    Right,
}

/// One decoded ESC/POS command.
#[derive(Clone, Debug)]
pub enum EscPosCommand {
    Text(String),
    NewLine,
    LineFeed,
    CarriageReturn,
    InitializePrinter,
    SetFont(Font),
    SetJustification(Justification),
    SetEmphasis(bool),
    SetUnderline(bool),
    SetItalic(bool),
    SetLineHeight(u32),
    SetFontSize(u32),
    SetCodepage(u8),
    CutPaper,
    PrintImage(Vec<u8>),
    PrintRasterImage { width_bytes: u16, height: u16, data: Vec<u8> },
    Unknown(Vec<u8>),
}

/// Mathematical value of a command: text and bytes as sequences.
pub enum CommandView {
    Text(Seq<char>),
    NewLine,
    LineFeed,
    CarriageReturn,
    InitializePrinter,
    SetFont(Font),
    SetJustification(Justification),
    SetEmphasis(bool),
    SetUnderline(bool),
    SetItalic(bool),
    SetLineHeight(u32),
    SetFontSize(u32),
    SetCodepage(u8),
    CutPaper,
    PrintImage(Seq<u8>),
    PrintRasterImage { width_bytes: u16, height: u16, data: Seq<u8> },
    Unknown(Seq<u8>),
}

impl View for EscPosCommand {
    type V = CommandView;

    open spec fn view(&self) -> CommandView {
        match self {
            EscPosCommand::Text(t) => CommandView::Text(t@),
            EscPosCommand::NewLine => CommandView::NewLine,
            EscPosCommand::LineFeed => CommandView::LineFeed,
            EscPosCommand::CarriageReturn => CommandView::CarriageReturn,
            EscPosCommand::InitializePrinter => CommandView::InitializePrinter,
            EscPosCommand::SetFont(f) => CommandView::SetFont(*f),
            EscPosCommand::SetJustification(j) => CommandView::SetJustification(*j),
            EscPosCommand::SetEmphasis(b) => CommandView::SetEmphasis(*b),
            EscPosCommand::SetUnderline(b) => CommandView::SetUnderline(*b),
            EscPosCommand::SetItalic(b) => CommandView::SetItalic(*b),
            EscPosCommand::SetLineHeight(h) => CommandView::SetLineHeight(*h),
            EscPosCommand::SetFontSize(s) => CommandView::SetFontSize(*s),
            EscPosCommand::SetCodepage(c) => CommandView::SetCodepage(*c),
            EscPosCommand::CutPaper => CommandView::CutPaper,
            EscPosCommand::PrintImage(d) => CommandView::PrintImage(d@),
            EscPosCommand::PrintRasterImage { width_bytes, height, data } => CommandView::PrintRasterImage {
                width_bytes: *width_bytes,
                height: *height,
                data: data@,
            },
            EscPosCommand::Unknown(d) => CommandView::Unknown(d@),
        }
    }
}

/// A copy of a byte vector with the same contents.
pub fn copy_bytes(v: &Vec<u8>) -> (r: Vec<u8>)
    ensures
        r@ == v@,
{
    let r = v.clone();
    assert(r@ =~= v@);
    r
}

impl EscPosCommand {
    /// A copy of this command with the same text and bytes.
    pub fn duplicate(&self) -> (r: EscPosCommand)
        ensures
            r@ == self@,
    {
        match self {
            EscPosCommand::Text(t) => EscPosCommand::Text(t.clone()),
            EscPosCommand::NewLine => EscPosCommand::NewLine,
            EscPosCommand::LineFeed => EscPosCommand::LineFeed,
            EscPosCommand::CarriageReturn => EscPosCommand::CarriageReturn,
            EscPosCommand::InitializePrinter => EscPosCommand::InitializePrinter,
            EscPosCommand::SetFont(f) => EscPosCommand::SetFont(*f),
            EscPosCommand::SetJustification(j) => EscPosCommand::SetJustification(*j),
            EscPosCommand::SetEmphasis(b) => EscPosCommand::SetEmphasis(*b),
            EscPosCommand::SetUnderline(b) => EscPosCommand::SetUnderline(*b),
            EscPosCommand::SetItalic(b) => EscPosCommand::SetItalic(*b),
            EscPosCommand::SetLineHeight(h) => EscPosCommand::SetLineHeight(*h),
            EscPosCommand::SetFontSize(s) => EscPosCommand::SetFontSize(*s),
            EscPosCommand::SetCodepage(c) => EscPosCommand::SetCodepage(*c),
            EscPosCommand::CutPaper => EscPosCommand::CutPaper,
            EscPosCommand::PrintImage(d) => EscPosCommand::PrintImage(copy_bytes(d)),
            EscPosCommand::PrintRasterImage { width_bytes, height, data } => EscPosCommand::PrintRasterImage {
                width_bytes: *width_bytes,
                height: *height,
                data: copy_bytes(data),
            },
            EscPosCommand::Unknown(d) => EscPosCommand::Unknown(copy_bytes(d)),
        }
    }
}

} // verus!
