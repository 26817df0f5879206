use vstd::prelude::*;
use vstd::string::*;
use crate::escpos::commands::{copy_bytes, CommandView, EscPosCommand, Font, Justification};

verus! {

/// Width of the paper roll loaded in the printer.
#[derive(Clone, Copy, Debug, PartialEq, Eq, Structural)]
pub enum PaperWidth {
    /// 384 dots
    Width50mm,
    /// 576 dots
    Width78mm,
    /// 640 dots
    Width80mm,
}

impl PaperWidth {
    /// Printable width in dots.
    pub open spec fn dots(self) -> u32 {
        match self {
            PaperWidth::Width50mm => 384,
            PaperWidth::Width78mm => 576,
            PaperWidth::Width80mm => 640,
        }
    }

    /// Characters per line for a font size: a character is 8, 10 or 12 dots wide.
    pub open spec fn max_chars(self, font_size: u32) -> u32 {
        if font_size <= 12 {
            (self.dots() / 8) as u32
        } else if font_size <= 16 {
            (self.dots() / 10) as u32
        } else if font_size <= 24 {
            (self.dots() / 12) as u32
        } else {
            (self.dots() / 8) as u32
        }
    }

    pub fn get_width_dots(&self) -> (dots: u32)
        ensures
            dots == self.dots(),
    {
        match self {
            PaperWidth::Width50mm => 384,
            PaperWidth::Width78mm => 576,
            PaperWidth::Width80mm => 640,
        }
    }

    pub fn get_max_chars(&self, font_size: u32) -> (n: u32)
        ensures
            n == self.max_chars(font_size),
    {
        let dots = self.get_width_dots();
        if font_size <= 12 {
            dots / 8
        } else if font_size <= 16 {
            dots / 10
        } else if font_size <= 24 {
            dots / 12
        } else {
            dots / 8
        }
    }
}

/// Text line with per-line formatting snapshot
#[derive(Clone, Debug)]
pub struct TextLine {
    pub content: String,
    pub font: Font,
    pub font_size: u32,
    pub justification: Justification,
    pub emphasis: bool,
    pub underline: bool,
    pub italic: bool,
    pub line_height: u32,
}

/// A single element in the receipt buffer
#[derive(Clone, Debug)]
pub enum ReceiptLine {
    Text(TextLine),
    /// Monochrome bitmap: width in pixels, height in pixels, 1-bit-per-pixel packed data
    Bitmap { width_px: u32, height_px: u32, data: Vec<u8> },
    Separator,
}

#[derive(Clone, Debug)]
pub struct PrinterState {
    pub paper_width: PaperWidth,
    pub current_font: Font,
    pub justification: Justification,
    pub emphasis: bool,
    pub underline: bool,
    pub italic: bool,
    pub buffer: Vec<ReceiptLine>,
    pub line_height: u32,
    pub font_size: u32,
    pub dpi: u32,
    pub codepage: u8,
}

/// Mathematical value of a text line.
pub struct TextLineView {
    pub content: Seq<char>,
    pub font: Font,
    pub font_size: u32,
    pub justification: Justification,
    pub emphasis: bool,
    pub underline: bool,
    pub italic: bool,
    pub line_height: u32,
}

/// Mathematical value of a receipt line.
pub enum LineView {
    Text(TextLineView),
    Bitmap { width_px: u32, height_px: u32, data: Seq<u8> },
    Separator,
}

/// Mathematical value of the printer: its settings and the receipt printed so far.
pub struct PrinterModel {
    pub paper_width: PaperWidth,
    pub current_font: Font,
    pub justification: Justification,
    pub emphasis: bool,
    pub underline: bool,
    pub italic: bool,
    pub buffer: Seq<LineView>,
    pub line_height: u32,
    pub font_size: u32,
    pub dpi: u32,
    pub codepage: u8,
}

impl View for TextLine {
    type V = TextLineView;

    open spec fn view(&self) -> TextLineView {
        TextLineView {
            content: self.content@,
            font: self.font,
            font_size: self.font_size,
            justification: self.justification,
            emphasis: self.emphasis,
            underline: self.underline,
            italic: self.italic,
            line_height: self.line_height,
        }
    }
}

impl View for ReceiptLine {
    type V = LineView;

    open spec fn view(&self) -> LineView {
        match self {
            ReceiptLine::Text(t) => LineView::Text(t@),
            ReceiptLine::Bitmap { width_px, height_px, data } => LineView::Bitmap {
                width_px: *width_px,
                height_px: *height_px,
                data: data@,
            },
            ReceiptLine::Separator => LineView::Separator,
        }
    }
}

/// The values of a sequence of receipt lines.
pub open spec fn lines_view(lines: Seq<ReceiptLine>) -> Seq<LineView> {
    lines.map_values(|l: ReceiptLine| l@)
}

impl View for PrinterState {
    type V = PrinterModel;

    open spec fn view(&self) -> PrinterModel {
        PrinterModel {
            paper_width: self.paper_width,
            current_font: self.current_font,
            justification: self.justification,
            emphasis: self.emphasis,
            underline: self.underline,
            italic: self.italic,
            buffer: lines_view(self.buffer@),
            line_height: self.line_height,
            font_size: self.font_size,
            dpi: self.dpi,
            codepage: self.codepage,
        }
    }
}

/// Height in dots that one line takes on paper; a separator takes the printer's line height.
pub open spec fn line_height_dots(line: LineView, printer_line_height: u32) -> int {
    match line {
        LineView::Text(t) => t.line_height as int,
        LineView::Bitmap { height_px, .. } => height_px as int,
        LineView::Separator => printer_line_height as int,
    }
}

/// Sum of the heights of the lines.
pub open spec fn lines_height(lines: Seq<LineView>, printer_line_height: u32) -> int
    decreases lines.len(),
{
    if lines.len() == 0 {
        0
    } else {
        lines_height(lines.drop_last(), printer_line_height) + line_height_dots(
            lines.last(),
            printer_line_height,
        )
    }
}

/// Number of characters held by the text lines.
pub open spec fn text_chars(lines: Seq<LineView>) -> int
    decreases lines.len(),
{
    if lines.len() == 0 {
        0
    } else {
        text_chars(lines.drop_last()) + match lines.last() {
            LineView::Text(t) => t.content.len() as int,
            _ => 0,
        }
    }
}

impl PrinterModel {
    /// The state of a freshly powered printer: 80 mm paper, font A, left aligned,
    /// no emphasis, 24-dot lines, size 12, 180 dpi, code page 0, empty receipt.
    pub open spec fn initial() -> PrinterModel {
        PrinterModel {
            paper_width: PaperWidth::Width80mm,
            current_font: Font::FontA,
            justification: Justification::Left,
            emphasis: false,
            underline: false,
            italic: false,
            buffer: Seq::empty(),
            line_height: 24,
            font_size: 12,
            dpi: 180,
            codepage: 0,
        }
    }

    /// The formatting defaults restored by ESC @; paper, resolution and receipt stay.
    pub open spec fn reset_formatting(self) -> PrinterModel {
        PrinterModel {
            current_font: Font::FontA,
            justification: Justification::Left,
            emphasis: false,
            underline: false,
            italic: false,
            line_height: 24,
            font_size: 12,
            codepage: 0,
            ..self
        }
    }

    /// A text line holding `content` with the current formatting.
    pub open spec fn snapshot(self, content: Seq<char>) -> TextLineView {
        TextLineView {
            content,
            font: self.current_font,
            font_size: self.font_size,
            justification: self.justification,
            emphasis: self.emphasis,
            underline: self.underline,
            italic: self.italic,
            line_height: self.line_height,
        }
    }

    pub open spec fn push_line(self, line: LineView) -> PrinterModel {
        PrinterModel { buffer: self.buffer.push(line), ..self }
    }

    /// Printing text: it joins the last line when that line is text and the joined
    /// line fits the paper (the joined line takes the current formatting);
    /// otherwise it starts a new line.
    pub open spec fn with_text(self, text: Seq<char>) -> PrinterModel {
        let n = self.buffer.len();
        if n > 0 {
            match self.buffer[n - 1] {
                LineView::Text(last) => {
                    if last.content.len() + text.len() > self.paper_width.max_chars(
                        self.font_size,
                    ) {
                        self.push_line(LineView::Text(self.snapshot(text)))
                    } else {
                        PrinterModel {
                            buffer: self.buffer.update(
                                n - 1,
                                LineView::Text(self.snapshot(last.content + text)),
                            ),
                            ..self
                        }
                    }
                },
                _ => self.push_line(LineView::Text(self.snapshot(text))),
            }
        } else {
            self.push_line(LineView::Text(self.snapshot(text)))
        }
    }

    /// A line feed starts an empty line with the current formatting.
    pub open spec fn with_new_line(self) -> PrinterModel {
        self.push_line(LineView::Text(self.snapshot(Seq::empty())))
    }

    /// The printer after one command.
    pub open spec fn after(self, c: CommandView) -> PrinterModel {
        match c {
            CommandView::Text(t) => self.with_text(t),
            CommandView::NewLine => self.with_new_line(),
            CommandView::LineFeed => self.with_new_line(),
            CommandView::CarriageReturn => self,
            CommandView::InitializePrinter => self.reset_formatting(),
            CommandView::SetFont(f) => PrinterModel { current_font: f, ..self },
            CommandView::SetJustification(j) => PrinterModel { justification: j, ..self },
            CommandView::SetEmphasis(b) => PrinterModel { emphasis: b, ..self },
            CommandView::SetUnderline(b) => PrinterModel { underline: b, ..self },
            CommandView::SetItalic(b) => PrinterModel { italic: b, ..self },
            CommandView::SetLineHeight(h) => PrinterModel { line_height: h, ..self },
            CommandView::SetFontSize(s) => PrinterModel { font_size: s, ..self },
            CommandView::SetCodepage(cp) => PrinterModel { codepage: cp, ..self },
            CommandView::CutPaper => self.push_line(LineView::Separator),
            CommandView::PrintImage(d) => {
                if d.len() == 0 {
                    self
                } else {
                    self.push_line(
                        LineView::Bitmap { width_px: 8, height_px: d.len() as u32, data: d },
                    )
                }
            },
            CommandView::PrintRasterImage { width_bytes, height, data } => self.push_line(
                LineView::Bitmap {
                    width_px: (width_bytes as u32 * 8) as u32,
                    height_px: height as u32,
                    data,
                },
            ),
            CommandView::Unknown(_) => self,
        }
    }

    /// Height of the receipt in dots, at least one.
    pub open spec fn total_height(self) -> int {
        let h = lines_height(self.buffer, self.line_height);
        if h < 1 {
            1
        } else {
            h
        }
    }
}

proof fn lemma_lines_view_push(s: Seq<ReceiptLine>, l: ReceiptLine)
    ensures
        lines_view(s.push(l)) == lines_view(s).push(l@),
{
    assert(lines_view(s.push(l)) =~= lines_view(s).push(l@));
}

proof fn lemma_lines_view_drop_last(s: Seq<ReceiptLine>)
    requires
        s.len() > 0,
    ensures
        lines_view(s.drop_last()) == lines_view(s).drop_last(),
        lines_view(s).last() == s.last()@,
{
    assert(lines_view(s.drop_last()) =~= lines_view(s).drop_last());
}

proof fn lemma_lines_height_nonneg(lines: Seq<LineView>, lh: u32)
    ensures
        lines_height(lines, lh) >= 0,
    decreases lines.len(),
{
    if lines.len() > 0 {
        lemma_lines_height_nonneg(lines.drop_last(), lh);
    }
}

proof fn lemma_lines_height_prefix(lines: Seq<LineView>, lh: u32, i: int)
    requires
        0 <= i <= lines.len(),
    ensures
        0 <= lines_height(lines.take(i), lh) <= lines_height(lines, lh),
    decreases lines.len(),
{
    lemma_lines_height_nonneg(lines.take(i), lh);
    if i < lines.len() {
        lemma_lines_height_prefix(lines.drop_last(), lh, i);
        assert(lines.drop_last().take(i) =~= lines.take(i));
        lemma_lines_height_nonneg(lines.drop_last(), lh);
    } else {
        assert(lines.take(i) =~= lines);
    }
}

/// No command changes the paper or the resolution.
pub proof fn lemma_command_keeps_paper(m: PrinterModel, c: CommandView)
    ensures
        m.after(c).paper_width == m.paper_width,
        m.after(c).dpi == m.dpi,
{
}

/// Commands never remove or reorder printed lines: every line but the last stays
/// as it was, the receipt never shrinks, and only text may change the last line.
pub proof fn lemma_command_keeps_earlier_lines(m: PrinterModel, c: CommandView)
    ensures
        m.buffer.len() <= m.after(c).buffer.len() <= m.buffer.len() + 1,
        forall|i: int| 0 <= i < m.buffer.len() - 1 ==> #[trigger] m.after(c).buffer[i] == m.buffer[i],
        !(c is Text) ==> m.after(c).buffer.subrange(0, m.buffer.len() as int) == m.buffer,
{
    if !(c is Text) {
        assert(m.after(c).buffer.subrange(0, m.buffer.len() as int) =~= m.buffer);
    }
}

proof fn lemma_text_chars_push(s: Seq<LineView>, l: LineView)
    ensures
        text_chars(s.push(l)) == text_chars(s) + match l {
            LineView::Text(t) => t.content.len() as int,
            _ => 0,
        },
{
    assert(s.push(l).drop_last() =~= s);
}

/// Printing text never loses or duplicates a character: the text lines hold
/// exactly the characters they held before plus those of the new text.
pub proof fn lemma_text_keeps_every_char(m: PrinterModel, t: Seq<char>)
    ensures
        text_chars(m.after(CommandView::Text(t)).buffer) == text_chars(m.buffer) + t.len(),
{
    let n = m.buffer.len();
    let after = m.after(CommandView::Text(t));
    if n > 0 {
        match m.buffer[n - 1] {
            LineView::Text(last) => {
                if last.content.len() + t.len() > m.paper_width.max_chars(m.font_size) {
                    lemma_text_chars_push(m.buffer, LineView::Text(m.snapshot(t)));
                } else {
                    let x = LineView::Text(m.snapshot(last.content + t));
                    assert(after.buffer.drop_last() =~= m.buffer.drop_last());
                    assert(after.buffer.last() == x);
                    assert(m.buffer.last() == m.buffer[n - 1]);
                }
            },
            _ => {
                lemma_text_chars_push(m.buffer, LineView::Text(m.snapshot(t)));
            },
        }
    } else {
        lemma_text_chars_push(m.buffer, LineView::Text(m.snapshot(t)));
    }
}

/// Text that fits on one line never makes the last line overflow the paper,
/// provided the last line did not overflow before.
pub proof fn lemma_text_fits_paper(m: PrinterModel, t: Seq<char>)
    requires
        t.len() <= m.paper_width.max_chars(m.font_size),
        m.buffer.len() > 0 && m.buffer.last() is Text ==> m.buffer.last()->Text_0.content.len()
            <= m.paper_width.max_chars(m.font_size),
    ensures
        m.after(CommandView::Text(t)).buffer.last() is Text,
        m.after(CommandView::Text(t)).buffer.last()->Text_0.content.len() <= m.paper_width.max_chars(
            m.font_size,
        ),
{
}

/// Cutting the paper ends the receipt with a separator.
pub proof fn lemma_cut_ends_receipt(m: PrinterModel)
    ensures
        m.after(CommandView::CutPaper).buffer.len() == m.buffer.len() + 1,
        m.after(CommandView::CutPaper).buffer.last() == LineView::Separator,
{
}

/// ESC @ brings every formatting setting back to its power-on value, and keeps
/// the paper, the resolution and the receipt.
pub proof fn lemma_reset_matches_power_on(m: PrinterModel)
    ensures
        m.after(CommandView::InitializePrinter) == (PrinterModel {
            paper_width: m.paper_width,
            dpi: m.dpi,
            buffer: m.buffer,
            ..PrinterModel::initial()
        }),
{
}

/// Each setting command sets its own setting to the value it carries, whatever
/// it was before, and changes nothing else: every other setting, the paper, the
/// resolution and the receipt stay as they were.
pub proof fn lemma_setting_commands_set_only_their_setting(
    m: PrinterModel,
    f: Font,
    j: Justification,
    b: bool,
    h: u32,
    n: u32,
    cp: u8,
)
    ensures
        m.after(CommandView::SetFont(f)).current_font == f,
        m.after(CommandView::SetFont(f)).justification == m.justification,
        m.after(CommandView::SetFont(f)).emphasis == m.emphasis,
        m.after(CommandView::SetFont(f)).underline == m.underline,
        m.after(CommandView::SetFont(f)).italic == m.italic,
        m.after(CommandView::SetFont(f)).line_height == m.line_height,
        m.after(CommandView::SetFont(f)).font_size == m.font_size,
        m.after(CommandView::SetFont(f)).codepage == m.codepage,
        m.after(CommandView::SetFont(f)).buffer == m.buffer,
        m.after(CommandView::SetFont(f)).paper_width == m.paper_width,
        m.after(CommandView::SetJustification(j)).justification == j,
        m.after(CommandView::SetJustification(j)).current_font == m.current_font,
        m.after(CommandView::SetJustification(j)).emphasis == m.emphasis,
        m.after(CommandView::SetJustification(j)).underline == m.underline,
        m.after(CommandView::SetJustification(j)).italic == m.italic,
        m.after(CommandView::SetJustification(j)).line_height == m.line_height,
        m.after(CommandView::SetJustification(j)).font_size == m.font_size,
        m.after(CommandView::SetJustification(j)).codepage == m.codepage,
        m.after(CommandView::SetJustification(j)).buffer == m.buffer,
        m.after(CommandView::SetJustification(j)).paper_width == m.paper_width,
        m.after(CommandView::SetEmphasis(b)).emphasis == b,
        m.after(CommandView::SetEmphasis(b)).current_font == m.current_font,
        m.after(CommandView::SetEmphasis(b)).justification == m.justification,
        m.after(CommandView::SetEmphasis(b)).underline == m.underline,
        m.after(CommandView::SetEmphasis(b)).italic == m.italic,
        m.after(CommandView::SetEmphasis(b)).line_height == m.line_height,
        m.after(CommandView::SetEmphasis(b)).font_size == m.font_size,
        m.after(CommandView::SetEmphasis(b)).codepage == m.codepage,
        m.after(CommandView::SetEmphasis(b)).buffer == m.buffer,
        m.after(CommandView::SetEmphasis(b)).paper_width == m.paper_width,
        m.after(CommandView::SetUnderline(b)).underline == b,
        m.after(CommandView::SetUnderline(b)).current_font == m.current_font,
        m.after(CommandView::SetUnderline(b)).justification == m.justification,
        m.after(CommandView::SetUnderline(b)).emphasis == m.emphasis,
        m.after(CommandView::SetUnderline(b)).italic == m.italic,
        m.after(CommandView::SetUnderline(b)).line_height == m.line_height,
        m.after(CommandView::SetUnderline(b)).font_size == m.font_size,
        m.after(CommandView::SetUnderline(b)).codepage == m.codepage,
        m.after(CommandView::SetUnderline(b)).buffer == m.buffer,
        m.after(CommandView::SetUnderline(b)).paper_width == m.paper_width,
        m.after(CommandView::SetItalic(b)).italic == b,
        m.after(CommandView::SetItalic(b)).current_font == m.current_font,
        m.after(CommandView::SetItalic(b)).justification == m.justification,
        m.after(CommandView::SetItalic(b)).emphasis == m.emphasis,
        m.after(CommandView::SetItalic(b)).underline == m.underline,
        m.after(CommandView::SetItalic(b)).line_height == m.line_height,
        m.after(CommandView::SetItalic(b)).font_size == m.font_size,
        m.after(CommandView::SetItalic(b)).codepage == m.codepage,
        m.after(CommandView::SetItalic(b)).buffer == m.buffer,
        m.after(CommandView::SetItalic(b)).paper_width == m.paper_width,
        m.after(CommandView::SetLineHeight(h)).line_height == h,
        m.after(CommandView::SetLineHeight(h)).current_font == m.current_font,
        m.after(CommandView::SetLineHeight(h)).justification == m.justification,
        m.after(CommandView::SetLineHeight(h)).emphasis == m.emphasis,
        m.after(CommandView::SetLineHeight(h)).underline == m.underline,
        m.after(CommandView::SetLineHeight(h)).italic == m.italic,
        m.after(CommandView::SetLineHeight(h)).font_size == m.font_size,
        m.after(CommandView::SetLineHeight(h)).codepage == m.codepage,
        m.after(CommandView::SetLineHeight(h)).buffer == m.buffer,
        m.after(CommandView::SetLineHeight(h)).paper_width == m.paper_width,
        m.after(CommandView::SetFontSize(n)).font_size == n,
        m.after(CommandView::SetFontSize(n)).current_font == m.current_font,
        m.after(CommandView::SetFontSize(n)).justification == m.justification,
        m.after(CommandView::SetFontSize(n)).emphasis == m.emphasis,
        m.after(CommandView::SetFontSize(n)).underline == m.underline,
        m.after(CommandView::SetFontSize(n)).italic == m.italic,
        m.after(CommandView::SetFontSize(n)).line_height == m.line_height,
        m.after(CommandView::SetFontSize(n)).codepage == m.codepage,
        m.after(CommandView::SetFontSize(n)).buffer == m.buffer,
        m.after(CommandView::SetFontSize(n)).paper_width == m.paper_width,
        m.after(CommandView::SetCodepage(cp)).codepage == cp,
        m.after(CommandView::SetCodepage(cp)).current_font == m.current_font,
        m.after(CommandView::SetCodepage(cp)).justification == m.justification,
        m.after(CommandView::SetCodepage(cp)).emphasis == m.emphasis,
        m.after(CommandView::SetCodepage(cp)).underline == m.underline,
        m.after(CommandView::SetCodepage(cp)).italic == m.italic,
        m.after(CommandView::SetCodepage(cp)).line_height == m.line_height,
        m.after(CommandView::SetCodepage(cp)).font_size == m.font_size,
        m.after(CommandView::SetCodepage(cp)).buffer == m.buffer,
        m.after(CommandView::SetCodepage(cp)).paper_width == m.paper_width,
{
}

/// Printing text leaves a text line at the end of the receipt that carries the
/// printer's current formatting in every field (font, size, justification, bold,
/// underline, italic, line height), whether the text started a new line or was
/// joined to the last one. The line holds the text alone when it starts a new
/// line, and the old last line's text followed by it when it joins that line.
/// The printer's own settings do not change.
pub proof fn lemma_text_line_takes_current_formatting(m: PrinterModel, t: Seq<char>)
    ensures
        ({
            let r = m.after(CommandView::Text(t));
            let l = r.buffer.last()->Text_0;
            &&& r.buffer.len() > 0
            &&& r.buffer.last() is Text
            &&& l.font == m.current_font
            &&& l.font_size == m.font_size
            &&& l.justification == m.justification
            &&& l.emphasis == m.emphasis
            &&& l.underline == m.underline
            &&& l.italic == m.italic
            &&& l.line_height == m.line_height
            &&& {
                ||| r.buffer.len() == m.buffer.len() + 1 && l.content == t
                ||| {
                    &&& r.buffer.len() == m.buffer.len()
                    &&& m.buffer.last() is Text
                    &&& l.content == m.buffer.last()->Text_0.content + t
                }
            }
            &&& r.current_font == m.current_font
            &&& r.justification == m.justification
            &&& r.emphasis == m.emphasis
            &&& r.underline == m.underline
            &&& r.italic == m.italic
            &&& r.line_height == m.line_height
            &&& r.font_size == m.font_size
            &&& r.codepage == m.codepage
        }),
{
}

impl PrinterState {
    pub fn new() -> (p: Self)
        ensures
            p@ == PrinterModel::initial(),
    {
        let p = Self {
            paper_width: PaperWidth::Width80mm,
            current_font: Font::FontA,
            justification: Justification::Left,
            emphasis: false,
            underline: false,
            italic: false,
            buffer: Vec::new(),
            line_height: 24,
            font_size: 12,
            dpi: 180,
            codepage: 0,
        };
        assert(lines_view(p.buffer@) =~= Seq::empty());
        p
    }

    /// Reset printer state to defaults (ESC @) — does NOT clear the buffer
    pub fn reset(&mut self)
        ensures
            final(self)@ == old(self)@.reset_formatting(),
            final(self).buffer@ == old(self).buffer@,
    {
        self.current_font = Font::FontA;
        self.justification = Justification::Left;
        self.emphasis = false;
        self.underline = false;
        self.italic = false;
        self.line_height = 24;
        self.font_size = 12;
        self.codepage = 0;
    }

    /// Create a TextLine snapshot with current formatting state
    fn current_text_line(&self, content: String) -> (t: TextLine)
        ensures
            t@ == self@.snapshot(content@),
    {
        TextLine {
            content,
            font: self.current_font,
            font_size: self.font_size,
            justification: self.justification,
            emphasis: self.emphasis,
            underline: self.underline,
            italic: self.italic,
            line_height: self.line_height,
        }
    }

    fn push_line(&mut self, line: ReceiptLine)
        ensures
            final(self)@ == old(self)@.push_line(line@),
    {
        proof {
            lemma_lines_view_push(self.buffer@, line);
        }
        self.buffer.push(line);
    }

    pub fn process_command(&mut self, command: &EscPosCommand)
        ensures
            final(self)@ == old(self)@.after(command@),
    {
        match command {
            EscPosCommand::Text(text) => {
                self.add_text(text.as_str());
            },
            EscPosCommand::NewLine => {
                self.add_new_line();
            },
            EscPosCommand::LineFeed => {
                self.add_new_line();
            },
            EscPosCommand::CarriageReturn => {
                // Carriage return — ignored (LF handles newline)
            },
            EscPosCommand::InitializePrinter => {
                self.reset();
            },
            EscPosCommand::SetFont(font) => {
                self.current_font = *font;
            },
            EscPosCommand::SetJustification(justification) => {
                self.justification = *justification;
            },
            EscPosCommand::SetEmphasis(enabled) => {
                self.emphasis = *enabled;
            },
            EscPosCommand::SetUnderline(enabled) => {
                self.underline = *enabled;
            },
            EscPosCommand::SetItalic(enabled) => {
                self.italic = *enabled;
            },
            EscPosCommand::SetLineHeight(height) => {
                self.line_height = *height;
            },
            EscPosCommand::SetFontSize(size) => {
                self.font_size = *size;
            },
            EscPosCommand::SetCodepage(cp) => {
                self.codepage = *cp;
            },
            EscPosCommand::CutPaper => {
                self.push_line(ReceiptLine::Separator);
            },
            EscPosCommand::PrintImage(image_data) => {
                // ESC * bit image — store as bitmap
                if image_data.len() != 0 {
                    self.push_line(
                        ReceiptLine::Bitmap {
                            width_px: 8,
                            height_px: image_data.len() as u32,
                            data: copy_bytes(image_data),
                        },
                    );
                }
            },
            EscPosCommand::PrintRasterImage { width_bytes, height, data } => {
                let width_px = *width_bytes as u32 * 8;
                let height_px = *height as u32;
                self.push_line(ReceiptLine::Bitmap { width_px, height_px, data: copy_bytes(data) });
            },
            EscPosCommand::Unknown(_) => {},
        }
    }

    fn add_text(&mut self, text: &str)
        ensures
            final(self)@ == old(self)@.with_text(text@),
    {
        let max_chars = self.paper_width.get_max_chars(self.font_size) as usize;
        let n = self.buffer.len();
        if n > 0 {
            let ghost old_buffer = self.buffer@;
            let last = self.buffer.pop().unwrap();
            proof {
                assert(self.buffer@ == old_buffer.drop_last());
                lemma_lines_view_drop_last(old_buffer);
            }
            match last {
                ReceiptLine::Text(mut last_line) => {
                    let current_length = last_line.content.as_str().unicode_len();
                    let text_length = text.unicode_len();
                    if current_length > max_chars || text_length > max_chars - current_length {
                        self.push_line(ReceiptLine::Text(last_line));
                        assert(self@.buffer =~= lines_view(old_buffer));
                        let text_line = self.current_text_line(text.to_owned());
                        self.push_line(ReceiptLine::Text(text_line));
                    } else {
                        last_line.content.append(text);
                        // Update formatting to current state snapshot
                        last_line.font = self.current_font;
                        last_line.font_size = self.font_size;
                        last_line.justification = self.justification;
                        last_line.emphasis = self.emphasis;
                        last_line.underline = self.underline;
                        last_line.italic = self.italic;
                        last_line.line_height = self.line_height;
                        self.push_line(ReceiptLine::Text(last_line));
                        proof {
                            assert(lines_view(self.buffer@) =~= lines_view(old_buffer).update(
                                n - 1,
                                self@.buffer.last(),
                            ));
                        }
                    }
                },
                other => {
                    self.push_line(other);
                    assert(self@.buffer =~= lines_view(old_buffer));
                    let text_line = self.current_text_line(text.to_owned());
                    self.push_line(ReceiptLine::Text(text_line));
                },
            }
        } else {
            let text_line = self.current_text_line(text.to_owned());
            self.push_line(ReceiptLine::Text(text_line));
        }
    }

    fn add_new_line(&mut self)
        ensures
            final(self)@ == old(self)@.with_new_line(),
    {
        let text_line = self.current_text_line(String::new());
        self.push_line(ReceiptLine::Text(text_line));
    }

    pub fn clear_buffer(&mut self)
        ensures
            final(self)@ == (PrinterModel { buffer: Seq::empty(), ..old(self)@ }),
    {
        self.buffer.clear();
        assert(lines_view(self.buffer@) =~= Seq::empty());
    }

    pub fn get_buffer(&self) -> (b: &[ReceiptLine])
        ensures
            b@ == self.buffer@,
    {
        self.buffer.as_slice()
    }

    /// Take ownership of the buffer, leaving it empty
    pub fn take_buffer(&mut self) -> (taken: Vec<ReceiptLine>)
        ensures
            taken@ == old(self).buffer@,
            final(self)@ == (PrinterModel { buffer: Seq::empty(), ..old(self)@ }),
    {
        let mut taken = Vec::new();
        std::mem::swap(&mut taken, &mut self.buffer);
        assert(lines_view(self.buffer@) =~= Seq::empty());
        taken
    }

    pub fn get_paper_width_dots(&self) -> (dots: u32)
        ensures
            dots == self.paper_width.dots(),
    {
        self.paper_width.get_width_dots()
    }

    pub fn calculate_total_height(&self) -> (h: u32)
        requires
            lines_height(self@.buffer, self.line_height) <= u32::MAX,
        ensures
            h == self@.total_height(),
            h >= 1,
    {
        let mut h = 0u32;
        let n = self.buffer.len();
        let ghost lines = self@.buffer;
        let mut i: usize = 0;
        while i < n
            invariant
                n == self.buffer.len(),
                lines == self@.buffer,
                lines.len() == n,
                0 <= i <= n,
                h == lines_height(lines.take(i as int), self.line_height),
                lines_height(lines, self.line_height) <= u32::MAX,
            decreases n - i,
        {
            proof {
                assert(lines.take(i + 1).drop_last() =~= lines.take(i as int));
                lemma_lines_height_prefix(lines, self.line_height, i + 1);
                assert(lines[i as int] == self.buffer@[i as int]@);
            }
            match &self.buffer[i] {
                ReceiptLine::Text(tl) => h = h + tl.line_height,
                ReceiptLine::Bitmap { height_px, .. } => h = h + *height_px,
                ReceiptLine::Separator => h = h + self.line_height,
            }
            i = i + 1;
        }
        assert(lines.take(n as int) =~= lines);
        if h < 1 {
            1
        } else {
            h
        }
    }

    pub fn set_paper_width(&mut self, width: PaperWidth)
        ensures
            final(self)@ == (PrinterModel { paper_width: width, ..old(self)@ }),
    {
        self.paper_width = width;
    }

    pub fn set_line_height(&mut self, height: u32)
        ensures
            final(self)@ == (PrinterModel { line_height: height, ..old(self)@ }),
    {
        self.line_height = height;
    }

    pub fn set_font_size(&mut self, size: u32)
        ensures
            final(self)@ == (PrinterModel { font_size: size, ..old(self)@ }),
    {
        self.font_size = size;
    }
}

} // verus!
