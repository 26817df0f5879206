use vstd::prelude::*;
use std::collections::VecDeque;
use crate::emulator::{CommandEntry, CommandEntryView, history_view};
use crate::escpos::commands::{CommandView, EscPosCommand, Font, Justification};
use crate::text::{
    chars_of, contains_chars, contains_run, decimal, elapsed_spec, elapsed_text, push_decimal,
    push_str,
};

verus! {

pub struct CommandLog {
    pub show_timestamps: bool,
    pub show_device_ip: bool,
    pub max_display_lines: usize,
    pub filter_text: String,
}

impl Default for CommandLog {
    fn default() -> (log: Self)
        ensures
            log.show_timestamps,
            log.show_device_ip,
            log.max_display_lines == 1000,
            log.filter_text@ == Seq::<char>::empty(),
    {
        Self {
            show_timestamps: true,
            show_device_ip: true,
            max_display_lines: 1000,
            filter_text: String::new(),
        }
    }
}

/// The lower-case form of a text, as `str::to_lowercase` gives it.
pub uninterp spec fn lowercase_of(s: Seq<char>) -> Seq<char>;

/// Calls `str::to_lowercase`; its result is named, as Unicode's lower-case
/// mapping takes pages to state.
#[verifier::external_body]
fn to_lowercase(s: &str) -> (r: String)
    ensures
        r@ == lowercase_of(s@),
{
    s.to_lowercase()
}

pub open spec fn font_name(f: Font) -> Seq<char> {
    match f {
        Font::FontA => "FontA"@,
        Font::FontB => "FontB"@,
    }
}

pub open spec fn justification_name(j: Justification) -> Seq<char> {
    match j {
        Justification::Left => "Left"@,
        Justification::Center => "Center"@,
        Justification::Right => "Right"@,
    }
}

pub open spec fn bool_name(b: bool) -> Seq<char> {
    if b {
        "true"@
    } else {
        "false"@
    }
}

pub open spec fn on_off(b: bool) -> Seq<char> {
    if b {
        "ON"@
    } else {
        "OFF"@
    }
}

/// The bytes written as decimal numbers separated by `, `.
pub open spec fn byte_items(d: Seq<u8>) -> Seq<char>
    decreases d.len(),
{
    if d.len() == 0 {
        Seq::empty()
    } else if d.len() == 1 {
        decimal(d[0] as nat)
    } else {
        byte_items(d.drop_last()) + ", "@ + decimal(d.last() as nat)
    }
}

/// A byte list written as `[1, 2, 3]`.
pub open spec fn byte_list(d: Seq<u8>) -> Seq<char> {
    "["@ + byte_items(d) + "]"@
}

/// The text the log filter searches in a command: the text itself for printed
/// text, the command's debug form (`SetFont(FontA)`, `PrintImage([1, 2])`, ...)
/// for every other command.
pub open spec fn search_spec(c: CommandView) -> Seq<char> {
    match c {
        CommandView::Text(t) => t,
        CommandView::NewLine => "NewLine"@,
        CommandView::LineFeed => "LineFeed"@,
        CommandView::CarriageReturn => "CarriageReturn"@,
        CommandView::InitializePrinter => "InitializePrinter"@,
        CommandView::SetFont(f) => "SetFont("@ + font_name(f) + ")"@,
        CommandView::SetJustification(j) => "SetJustification("@ + justification_name(j) + ")"@,
        CommandView::SetEmphasis(b) => "SetEmphasis("@ + bool_name(b) + ")"@,
        CommandView::SetUnderline(b) => "SetUnderline("@ + bool_name(b) + ")"@,
        CommandView::SetItalic(b) => "SetItalic("@ + bool_name(b) + ")"@,
        CommandView::SetLineHeight(h) => "SetLineHeight("@ + decimal(h as nat) + ")"@,
        CommandView::SetFontSize(s) => "SetFontSize("@ + decimal(s as nat) + ")"@,
        CommandView::SetCodepage(cp) => "SetCodepage("@ + decimal(cp as nat) + ")"@,
        CommandView::CutPaper => "CutPaper"@,
        CommandView::PrintImage(d) => "PrintImage("@ + byte_list(d) + ")"@,
        CommandView::PrintRasterImage { width_bytes, height, data } => "PrintRasterImage { width_bytes: "@
            + decimal(width_bytes as nat) + ", height: "@ + decimal(height as nat) + ", data: "@
            + byte_list(data) + " }"@,
        CommandView::Unknown(d) => "Unknown("@ + byte_list(d) + ")"@,
    }
}

/// The line the log shows for a command.
pub open spec fn description_spec(c: CommandView) -> Seq<char> {
    match c {
        CommandView::Text(t) => "📝 "@ + t,
        CommandView::NewLine => "↵ NewLine"@,
        CommandView::LineFeed => "⏬ LineFeed"@,
        CommandView::CarriageReturn => "↩️ CR"@,
        CommandView::SetFont(f) => "🔤 Font: "@ + font_name(f),
        CommandView::SetJustification(j) => "📐 Align: "@ + justification_name(j),
        CommandView::SetEmphasis(b) => "💪 Bold: "@ + on_off(b),
        CommandView::SetUnderline(b) => "➖ Underline: "@ + on_off(b),
        CommandView::SetItalic(b) => "📝 Italic: "@ + on_off(b),
        CommandView::CutPaper => "✂️ Cut Paper"@,
        CommandView::PrintImage(_) => "🖼️ Bit Image (ESC *)"@,
        CommandView::PrintRasterImage { width_bytes, height, .. } => "🖼️ Raster "@ + decimal(
            (width_bytes * 8) as nat,
        ) + "×"@ + decimal(height as nat),
        CommandView::SetCodepage(cp) => "🌐 CP"@ + decimal(cp as nat),
        CommandView::SetLineHeight(h) => "📏 LineH: "@ + decimal(h as nat),
        CommandView::SetFontSize(s) => "🔤 Size: "@ + decimal(s as nat),
        CommandView::InitializePrinter => "🔄 Init Printer"@,
        CommandView::Unknown(d) => "❓ Unknown ("@ + decimal(d.len()) + " bytes)"@,
    }
}

/// Whether a history entry passes the filter: every entry passes an empty
/// filter; otherwise the filter, in lower case, must occur in the entry's
/// searched text, in lower case.
pub open spec fn entry_matches(filter: Seq<char>, e: CommandEntryView) -> bool {
    filter.len() == 0 || contains_run(lowercase_of(search_spec(e.command)), lowercase_of(filter))
}

/// Number of entries that pass the filter.
pub open spec fn matching_count(h: Seq<CommandEntryView>, filter: Seq<char>) -> nat
    decreases h.len(),
{
    if h.len() == 0 {
        0
    } else {
        matching_count(h.drop_last(), filter) + if entry_matches(filter, h.last()) {
            1nat
        } else {
            0nat
        }
    }
}

/// Positions of the entries that pass the filter, newest first, at most `max` of them.
pub open spec fn newest_matches(h: Seq<CommandEntryView>, filter: Seq<char>, max: nat) -> Seq<int>
    decreases h.len(),
{
    if h.len() == 0 || max == 0 {
        Seq::empty()
    } else if entry_matches(filter, h.last()) {
        seq![h.len() - 1].add(newest_matches(h.drop_last(), filter, (max - 1) as nat))
    } else {
        newest_matches(h.drop_last(), filter, max)
    }
}

fn push_bool(s: &mut String, b: bool)
    ensures
        final(s)@ == old(s)@ + bool_name(b),
{
    if b {
        push_str(s, "true");
    } else {
        push_str(s, "false");
    }
}

fn push_on_off(s: &mut String, b: bool)
    ensures
        final(s)@ == old(s)@ + on_off(b),
{
    if b {
        push_str(s, "ON");
    } else {
        push_str(s, "OFF");
    }
}

fn push_font(s: &mut String, f: Font)
    ensures
        final(s)@ == old(s)@ + font_name(f),
{
    match f {
        Font::FontA => push_str(s, "FontA"),
        Font::FontB => push_str(s, "FontB"),
    }
}

fn push_justification(s: &mut String, j: Justification)
    ensures
        final(s)@ == old(s)@ + justification_name(j),
{
    match j {
        Justification::Left => push_str(s, "Left"),
        Justification::Center => push_str(s, "Center"),
        Justification::Right => push_str(s, "Right"),
    }
}

fn push_byte_list(s: &mut String, d: &Vec<u8>)
    ensures
        final(s)@ == old(s)@ + byte_list(d@),
{
    let ghost start = s@;
    push_str(s, "[");
    let n = d.len();
    let mut i: usize = 0;
    while i < n
        invariant
            n == d@.len(),
            0 <= i <= n,
            s@ == start + "["@ + byte_items(d@.take(i as int)),
        decreases n - i,
    {
        let ghost before = s@;
        if i > 0 {
            push_str(s, ", ");
        }
        push_decimal(s, d[i] as u64);
        proof {
            let t = d@.take(i + 1);
            assert(t.drop_last() =~= d@.take(i as int));
            if i == 0 {
                assert(byte_items(d@.take(0)) =~= Seq::<char>::empty());
                assert(s@ =~= start + "["@ + byte_items(t));
            } else {
                assert(s@ =~= start + "["@ + byte_items(t));
            }
        }
        i = i + 1;
    }
    assert(d@.take(n as int) =~= d@);
    push_str(s, "]");
    assert(s@ =~= start + byte_list(d@));
}

/// The text the log filter searches in a command.
pub fn command_search_text(c: &EscPosCommand) -> (s: String)
    ensures
        s@ == search_spec(c@),
{
    let mut s = String::new();
    match c {
        EscPosCommand::Text(t) => push_str(&mut s, t.as_str()),
        EscPosCommand::NewLine => push_str(&mut s, "NewLine"),
        EscPosCommand::LineFeed => push_str(&mut s, "LineFeed"),
        EscPosCommand::CarriageReturn => push_str(&mut s, "CarriageReturn"),
        EscPosCommand::InitializePrinter => push_str(&mut s, "InitializePrinter"),
        EscPosCommand::SetFont(f) => {
            push_str(&mut s, "SetFont(");
            push_font(&mut s, *f);
            push_str(&mut s, ")");
        },
        EscPosCommand::SetJustification(j) => {
            push_str(&mut s, "SetJustification(");
            push_justification(&mut s, *j);
            push_str(&mut s, ")");
        },
        EscPosCommand::SetEmphasis(b) => {
            push_str(&mut s, "SetEmphasis(");
            push_bool(&mut s, *b);
            push_str(&mut s, ")");
        },
        EscPosCommand::SetUnderline(b) => {
            push_str(&mut s, "SetUnderline(");
            push_bool(&mut s, *b);
            push_str(&mut s, ")");
        },
        EscPosCommand::SetItalic(b) => {
            push_str(&mut s, "SetItalic(");
            push_bool(&mut s, *b);
            push_str(&mut s, ")");
        },
        EscPosCommand::SetLineHeight(h) => {
            push_str(&mut s, "SetLineHeight(");
            push_decimal(&mut s, *h as u64);
            push_str(&mut s, ")");
        },
        EscPosCommand::SetFontSize(z) => {
            push_str(&mut s, "SetFontSize(");
            push_decimal(&mut s, *z as u64);
            push_str(&mut s, ")");
        },
        EscPosCommand::SetCodepage(cp) => {
            push_str(&mut s, "SetCodepage(");
            push_decimal(&mut s, *cp as u64);
            push_str(&mut s, ")");
        },
        EscPosCommand::CutPaper => push_str(&mut s, "CutPaper"),
        EscPosCommand::PrintImage(d) => {
            push_str(&mut s, "PrintImage(");
            push_byte_list(&mut s, d);
            push_str(&mut s, ")");
        },
        EscPosCommand::PrintRasterImage { width_bytes, height, data } => {
            push_str(&mut s, "PrintRasterImage { width_bytes: ");
            push_decimal(&mut s, *width_bytes as u64);
            push_str(&mut s, ", height: ");
            push_decimal(&mut s, *height as u64);
            push_str(&mut s, ", data: ");
            push_byte_list(&mut s, data);
            push_str(&mut s, " }");
        },
        EscPosCommand::Unknown(d) => {
            push_str(&mut s, "Unknown(");
            push_byte_list(&mut s, d);
            push_str(&mut s, ")");
        },
    }
    assert(s@ =~= search_spec(c@));
    s
}

/// The line the log shows for a command.
pub fn describe_command(c: &EscPosCommand) -> (s: String)
    ensures
        s@ == description_spec(c@),
{
    let mut s = String::new();
    match c {
        EscPosCommand::Text(t) => {
            push_str(&mut s, "📝 ");
            push_str(&mut s, t.as_str());
        },
        EscPosCommand::NewLine => push_str(&mut s, "↵ NewLine"),
        EscPosCommand::LineFeed => push_str(&mut s, "⏬ LineFeed"),
        EscPosCommand::CarriageReturn => push_str(&mut s, "↩️ CR"),
        EscPosCommand::SetFont(f) => {
            push_str(&mut s, "🔤 Font: ");
            push_font(&mut s, *f);
        },
        EscPosCommand::SetJustification(j) => {
            push_str(&mut s, "📐 Align: ");
            push_justification(&mut s, *j);
        },
        EscPosCommand::SetEmphasis(b) => {
            push_str(&mut s, "💪 Bold: ");
            push_on_off(&mut s, *b);
        },
        EscPosCommand::SetUnderline(b) => {
            push_str(&mut s, "➖ Underline: ");
            push_on_off(&mut s, *b);
        },
        EscPosCommand::SetItalic(b) => {
            push_str(&mut s, "📝 Italic: ");
            push_on_off(&mut s, *b);
        },
        EscPosCommand::CutPaper => push_str(&mut s, "✂️ Cut Paper"),
        EscPosCommand::PrintImage(_) => push_str(&mut s, "🖼️ Bit Image (ESC *)"),
        EscPosCommand::PrintRasterImage { width_bytes, height, .. } => {
            push_str(&mut s, "🖼️ Raster ");
            push_decimal(&mut s, *width_bytes as u64 * 8);
            push_str(&mut s, "×");
            push_decimal(&mut s, *height as u64);
        },
        EscPosCommand::SetCodepage(cp) => {
            push_str(&mut s, "🌐 CP");
            push_decimal(&mut s, *cp as u64);
        },
        EscPosCommand::SetLineHeight(h) => {
            push_str(&mut s, "📏 LineH: ");
            push_decimal(&mut s, *h as u64);
        },
        EscPosCommand::SetFontSize(z) => {
            push_str(&mut s, "🔤 Size: ");
            push_decimal(&mut s, *z as u64);
        },
        EscPosCommand::InitializePrinter => push_str(&mut s, "🔄 Init Printer"),
        EscPosCommand::Unknown(d) => {
            push_str(&mut s, "❓ Unknown (");
            push_decimal(&mut s, d.len() as u64);
            push_str(&mut s, " bytes)");
        },
    }
    assert(s@ =~= description_spec(c@));
    s
}

/// The line under the log: `Total: 12 | Displayed: 5 | Filtered: 5`.
pub fn summary_text(total: usize, displayed: usize, filtered: usize) -> (s: String)
    ensures
        s@ == "Total: "@ + decimal(total as nat) + " | Displayed: "@ + decimal(displayed as nat)
            + " | Filtered: "@ + decimal(filtered as nat),
{
    let mut s = String::new();
    push_str(&mut s, "Total: ");
    push_decimal(&mut s, total as u64);
    push_str(&mut s, " | Displayed: ");
    push_decimal(&mut s, displayed as u64);
    push_str(&mut s, " | Filtered: ");
    push_decimal(&mut s, filtered as u64);
    assert(s@ =~= "Total: "@ + decimal(total as nat) + " | Displayed: "@ + decimal(
        displayed as nat,
    ) + " | Filtered: "@ + decimal(filtered as nat));
    s
}

/// How long ago an entry arrived, as the log shows it: `42s ago`, `3m 5s ago`, `2h 7m ago`.
pub fn time_ago_text(secs: u64) -> (s: String)
    ensures
        s@ == elapsed_spec(secs as nat) + " ago"@,
{
    let mut s = elapsed_text(secs);
    push_str(&mut s, " ago");
    s
}

/// The log line of a bold, underline or italic command names that setting and
/// its new state: `💪 Bold: `, `➖ Underline: ` or `📝 Italic: `, then `ON` or
/// `OFF`. So the lines of the three commands differ from one another, and the
/// lines for turning a setting on and off differ too.
pub proof fn lemma_flag_lines_name_their_setting(a: bool, b: bool)
    ensures
        description_spec(CommandView::SetEmphasis(b)) == "💪 Bold: "@ + (if b {
            "ON"@
        } else {
            "OFF"@
        }),
        description_spec(CommandView::SetUnderline(b)) == "➖ Underline: "@ + (if b {
            "ON"@
        } else {
            "OFF"@
        }),
        description_spec(CommandView::SetItalic(b)) == "📝 Italic: "@ + (if b {
            "ON"@
        } else {
            "OFF"@
        }),
        description_spec(CommandView::SetEmphasis(a)) != description_spec(CommandView::SetUnderline(b)),
        description_spec(CommandView::SetEmphasis(a)) != description_spec(CommandView::SetItalic(b)),
        description_spec(CommandView::SetUnderline(a)) != description_spec(CommandView::SetItalic(b)),
        a != b ==> description_spec(CommandView::SetEmphasis(a)) != description_spec(
            CommandView::SetEmphasis(b),
        ),
        a != b ==> description_spec(CommandView::SetUnderline(a)) != description_spec(
            CommandView::SetUnderline(b),
        ),
        a != b ==> description_spec(CommandView::SetItalic(a)) != description_spec(
            CommandView::SetItalic(b),
        ),
{
    reveal_strlit("💪 Bold: ");
    reveal_strlit("➖ Underline: ");
    reveal_strlit("📝 Italic: ");
    reveal_strlit("ON");
    reveal_strlit("OFF");
    let e = description_spec(CommandView::SetEmphasis(a));
    let u = description_spec(CommandView::SetUnderline(a));
    let i = description_spec(CommandView::SetItalic(a));
    let u2 = description_spec(CommandView::SetUnderline(b));
    let i2 = description_spec(CommandView::SetItalic(b));
    assert(e[0] != u2[0]);
    assert(e[0] != i2[0]);
    assert(u[0] != i2[0]);
    if a != b {
        let e2 = description_spec(CommandView::SetEmphasis(b));
        assert(e.len() != e2.len());
        assert(u.len() != u2.len());
        assert(i.len() != i2.len());
    }
}

/// An empty filter lets every entry through.
pub proof fn lemma_empty_filter_shows_all(h: Seq<CommandEntryView>)
    ensures
        matching_count(h, Seq::empty()) == h.len(),
    decreases h.len(),
{
    if h.len() > 0 {
        lemma_empty_filter_shows_all(h.drop_last());
    }
}

/// The log lists at most `max` entries, each one that passes the filter, each
/// once, newest first.
pub proof fn lemma_display_newest_first(h: Seq<CommandEntryView>, filter: Seq<char>, max: nat)
    ensures
        newest_matches(h, filter, max).len() <= max,
        forall|k: int|
            0 <= k < newest_matches(h, filter, max).len() ==> 0 <= #[trigger] newest_matches(
                h,
                filter,
                max,
            )[k] < h.len() && entry_matches(filter, h[newest_matches(h, filter, max)[k]]),
        forall|k: int, l: int|
            0 <= k < l < newest_matches(h, filter, max).len() ==> #[trigger] newest_matches(
                h,
                filter,
                max,
            )[k] > #[trigger] newest_matches(h, filter, max)[l],
    decreases h.len(),
{
    if h.len() == 0 || max == 0 {
    } else {
        let rest_max = if entry_matches(filter, h.last()) {
            (max - 1) as nat
        } else {
            max
        };
        lemma_display_newest_first(h.drop_last(), filter, rest_max);
        let rest = newest_matches(h.drop_last(), filter, rest_max);
        assert forall|k: int| 0 <= k < rest.len() implies h[rest[k]] == h.drop_last()[rest[k]] by {}
    }
}

impl CommandLog {
    pub fn new() -> (log: Self)
        ensures
            log.show_timestamps,
            log.show_device_ip,
            log.max_display_lines == 1000,
            log.filter_text@ == Seq::<char>::empty(),
    {
        Self::default()
    }

    /// Whether a history entry passes the log's filter.
    pub fn matches_filter(&self, entry: &CommandEntry) -> (r: bool)
        ensures
            r == entry_matches(self.filter_text@, entry@),
    {
        if self.filter_text.as_str().is_empty() {
            return true;
        }
        let filter_lower = to_lowercase(self.filter_text.as_str());
        let text = command_search_text(&entry.command);
        let text_lower = to_lowercase(text.as_str());
        contains_chars(&chars_of(text_lower.as_str()), &chars_of(filter_lower.as_str()))
    }

    /// The entries the log lists: the positions of those that pass the filter,
    /// newest first, at most `max_display_lines` of them; and how many pass.
    pub fn select_for_display(&self, history: &VecDeque<CommandEntry>) -> (r: (Vec<usize>, usize))
        ensures
            r.0@.map_values(|i: usize| i as int) == newest_matches(
                history_view(history@),
                self.filter_text@,
                self.max_display_lines as nat,
            ),
            r.1 == matching_count(history_view(history@), self.filter_text@),
    {
        let ghost h = history_view(history@);
        let ghost f = self.filter_text@;
        let n = history.len();
        let mut shown: Vec<usize> = Vec::new();
        let mut matched: usize = 0;
        let mut k: usize = n;
        assert(h.take(n as int) =~= h);
        assert(shown@.map_values(|i: usize| i as int) =~= Seq::<int>::empty());
        while k > 0
            invariant
                n == history@.len(),
                h == history_view(history@),
                f == self.filter_text@,
                0 <= k <= n,
                shown@.len() <= self.max_display_lines,
                matched <= n - k,
                shown@.map_values(|i: usize| i as int) + newest_matches(
                    h.take(k as int),
                    f,
                    (self.max_display_lines - shown@.len()) as nat,
                ) == newest_matches(h, f, self.max_display_lines as nat),
                matched + matching_count(h.take(k as int), f) == matching_count(h, f),
            decreases k,
        {
            let ghost t = h.take(k as int);
            proof {
                assert(t.drop_last() =~= h.take(k - 1));
                assert(t.last() == history@[k - 1]@);
            }
            let m = self.matches_filter(&history[k - 1]);
            if m {
                matched = matched + 1;
                if shown.len() < self.max_display_lines {
                    let ghost before = shown@;
                    shown.push(k - 1);
                    proof {
                        assert(shown@.map_values(|i: usize| i as int) =~= before.map_values(
                            |i: usize| i as int,
                        ).push(k - 1));
                    }
                }
            }
            k = k - 1;
            proof {
                assert(shown@.map_values(|i: usize| i as int) + newest_matches(
                    h.take(k as int),
                    f,
                    (self.max_display_lines - shown@.len()) as nat,
                ) =~= newest_matches(h, f, self.max_display_lines as nat));
            }
        }
        proof {
            assert(h.take(0) =~= Seq::<CommandEntryView>::empty());
        }
        assert(shown@.map_values(|i: usize| i as int) =~= newest_matches(
            h,
            f,
            self.max_display_lines as nat,
        ));
        (shown, matched)
    }
}

} // verus!
