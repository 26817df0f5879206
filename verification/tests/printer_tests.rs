use escpos_emulator::escpos::commands::{EscPosCommand, Font, Justification};
use escpos_emulator::escpos::printer::{PaperWidth, PrinterState, ReceiptLine};

fn text(s: &str) -> EscPosCommand {
    EscPosCommand::Text(s.to_string())
}

fn line_text(line: &ReceiptLine) -> &str {
    match line {
        ReceiptLine::Text(t) => t.content.as_str(),
        _ => panic!("not a text line"),
    }
}

#[test]
fn paper_width_dots() {
    assert_eq!(PaperWidth::Width50mm.get_width_dots(), 384);
    assert_eq!(PaperWidth::Width78mm.get_width_dots(), 576);
    assert_eq!(PaperWidth::Width80mm.get_width_dots(), 640);
}

#[test]
fn max_chars_by_font_size() {
    assert_eq!(PaperWidth::Width80mm.get_max_chars(0), 80);
    assert_eq!(PaperWidth::Width80mm.get_max_chars(12), 80);
    assert_eq!(PaperWidth::Width80mm.get_max_chars(13), 64);
    assert_eq!(PaperWidth::Width80mm.get_max_chars(16), 64);
    assert_eq!(PaperWidth::Width80mm.get_max_chars(17), 53);
    assert_eq!(PaperWidth::Width80mm.get_max_chars(24), 53);
    assert_eq!(PaperWidth::Width80mm.get_max_chars(25), 80);
    assert_eq!(PaperWidth::Width50mm.get_max_chars(12), 48);
    assert_eq!(PaperWidth::Width78mm.get_max_chars(14), 57);
}

#[test]
fn new_printer_defaults() {
    let p = PrinterState::new();
    assert_eq!(p.paper_width, PaperWidth::Width80mm);
    assert_eq!(p.current_font, Font::FontA);
    assert_eq!(p.justification, Justification::Left);
    assert!(!p.emphasis && !p.underline && !p.italic);
    assert!(p.buffer.is_empty());
    assert_eq!(p.line_height, 24);
    assert_eq!(p.font_size, 12);
    assert_eq!(p.dpi, 180);
    assert_eq!(p.codepage, 0);
    assert_eq!(p.get_paper_width_dots(), 640);
}

#[test]
fn text_joins_last_text_line() {
    let mut p = PrinterState::new();
    p.process_command(&text("Hello"));
    p.process_command(&text(" World"));
    assert_eq!(p.get_buffer().len(), 1);
    assert_eq!(line_text(&p.get_buffer()[0]), "Hello World");
}

#[test]
fn text_wraps_when_line_full() {
    let mut p = PrinterState::new();
    p.set_paper_width(PaperWidth::Width50mm); // 48 characters at size 12
    p.process_command(&text(&"a".repeat(40)));
    p.process_command(&text(&"b".repeat(8)));
    assert_eq!(p.get_buffer().len(), 1);
    p.process_command(&text("c"));
    assert_eq!(p.get_buffer().len(), 2);
    assert_eq!(line_text(&p.get_buffer()[1]), "c");
}

#[test]
fn text_longer_than_line_stays_whole() {
    let mut p = PrinterState::new();
    p.set_paper_width(PaperWidth::Width50mm);
    let long = "x".repeat(100);
    p.process_command(&text(&long));
    assert_eq!(p.get_buffer().len(), 1);
    assert_eq!(line_text(&p.get_buffer()[0]), long);
}

#[test]
fn wrapping_counts_characters_not_bytes() {
    let mut p = PrinterState::new();
    p.set_paper_width(PaperWidth::Width50mm);
    p.process_command(&text(&"é".repeat(30)));
    p.process_command(&text(&"ب".repeat(18)));
    assert_eq!(p.get_buffer().len(), 1);
}

#[test]
fn joined_line_takes_current_formatting() {
    let mut p = PrinterState::new();
    p.process_command(&text("A"));
    p.process_command(&EscPosCommand::SetEmphasis(true));
    p.process_command(&EscPosCommand::SetJustification(Justification::Center));
    p.process_command(&text("B"));
    match &p.get_buffer()[0] {
        ReceiptLine::Text(t) => {
            assert_eq!(t.content, "AB");
            assert!(t.emphasis);
            assert_eq!(t.justification, Justification::Center);
        }
        _ => panic!("expected text"),
    }
}

#[test]
fn new_line_and_line_feed_start_empty_lines() {
    let mut p = PrinterState::new();
    p.process_command(&text("A"));
    p.process_command(&EscPosCommand::NewLine);
    p.process_command(&EscPosCommand::LineFeed);
    assert_eq!(p.get_buffer().len(), 3);
    assert_eq!(line_text(&p.get_buffer()[1]), "");
    p.process_command(&text("B"));
    assert_eq!(p.get_buffer().len(), 3);
    assert_eq!(line_text(&p.get_buffer()[2]), "B");
}

#[test]
fn carriage_return_and_unknown_change_nothing() {
    let mut p = PrinterState::new();
    p.process_command(&text("A"));
    p.process_command(&EscPosCommand::CarriageReturn);
    p.process_command(&EscPosCommand::Unknown(vec![1, 2]));
    assert_eq!(p.get_buffer().len(), 1);
    assert_eq!(line_text(&p.get_buffer()[0]), "A");
}

#[test]
fn settings_commands() {
    let mut p = PrinterState::new();
    p.process_command(&EscPosCommand::SetFont(Font::FontB));
    p.process_command(&EscPosCommand::SetUnderline(true));
    p.process_command(&EscPosCommand::SetItalic(true));
    p.process_command(&EscPosCommand::SetLineHeight(30));
    p.process_command(&EscPosCommand::SetFontSize(20));
    p.process_command(&EscPosCommand::SetCodepage(17));
    assert_eq!(p.current_font, Font::FontB);
    assert!(p.underline && p.italic);
    assert_eq!(p.line_height, 30);
    assert_eq!(p.font_size, 20);
    assert_eq!(p.codepage, 17);
    assert!(p.buffer.is_empty());
}

#[test]
fn reset_restores_defaults_and_keeps_buffer() {
    let mut p = PrinterState::new();
    p.set_paper_width(PaperWidth::Width78mm);
    p.process_command(&EscPosCommand::SetFont(Font::FontB));
    p.process_command(&EscPosCommand::SetEmphasis(true));
    p.process_command(&EscPosCommand::SetFontSize(30));
    p.process_command(&EscPosCommand::SetCodepage(3));
    p.process_command(&text("keep"));
    p.process_command(&EscPosCommand::InitializePrinter);
    assert_eq!(p.current_font, Font::FontA);
    assert!(!p.emphasis);
    assert_eq!(p.font_size, 12);
    assert_eq!(p.codepage, 0);
    assert_eq!(p.line_height, 24);
    assert_eq!(p.paper_width, PaperWidth::Width78mm);
    assert_eq!(p.get_buffer().len(), 1);
    assert_eq!(line_text(&p.get_buffer()[0]), "keep");
}

#[test]
fn cut_paper_adds_separator() {
    let mut p = PrinterState::new();
    p.process_command(&text("A"));
    p.process_command(&EscPosCommand::CutPaper);
    assert!(matches!(p.get_buffer()[1], ReceiptLine::Separator));
    // text after a cut starts a new line
    p.process_command(&text("B"));
    assert_eq!(p.get_buffer().len(), 3);
}

#[test]
fn bit_image_becomes_bitmap() {
    let mut p = PrinterState::new();
    p.process_command(&EscPosCommand::PrintImage(vec![]));
    assert!(p.get_buffer().is_empty());
    p.process_command(&EscPosCommand::PrintImage(vec![0xff, 0x00, 0x81]));
    match &p.get_buffer()[0] {
        ReceiptLine::Bitmap { width_px, height_px, data } => {
            assert_eq!(*width_px, 8);
            assert_eq!(*height_px, 3);
            assert_eq!(data, &vec![0xff, 0x00, 0x81]);
        }
        _ => panic!("expected bitmap"),
    }
}

#[test]
fn raster_image_becomes_bitmap() {
    let mut p = PrinterState::new();
    p.process_command(&EscPosCommand::PrintRasterImage { width_bytes: 2, height: 5, data: vec![7; 10] });
    match &p.get_buffer()[0] {
        ReceiptLine::Bitmap { width_px, height_px, data } => {
            assert_eq!(*width_px, 16);
            assert_eq!(*height_px, 5);
            assert_eq!(data.len(), 10);
        }
        _ => panic!("expected bitmap"),
    }
}

#[test]
fn take_buffer_leaves_it_empty() {
    let mut p = PrinterState::new();
    p.process_command(&text("A"));
    p.process_command(&EscPosCommand::CutPaper);
    let taken = p.take_buffer();
    assert_eq!(taken.len(), 2);
    assert!(p.get_buffer().is_empty());
    p.process_command(&text("B"));
    p.clear_buffer();
    assert!(p.get_buffer().is_empty());
}

#[test]
fn total_height_sums_lines() {
    let mut p = PrinterState::new();
    assert_eq!(p.calculate_total_height(), 1);
    p.process_command(&text("A")); // 24
    p.process_command(&EscPosCommand::SetLineHeight(30));
    p.process_command(&EscPosCommand::NewLine); // 30
    p.process_command(&EscPosCommand::PrintImage(vec![1, 2, 3, 4])); // 4
    p.process_command(&EscPosCommand::CutPaper); // printer line height 30
    assert_eq!(p.calculate_total_height(), 24 + 30 + 4 + 30);
    p.set_line_height(10);
    assert_eq!(p.calculate_total_height(), 24 + 30 + 4 + 10);
    p.set_font_size(16);
    assert_eq!(p.font_size, 16);
}

#[test]
fn text_keeps_every_char() {
    let mut p = PrinterState::new();
    p.set_paper_width(PaperWidth::Width50mm);
    let pieces = ["hello ", "world", &"z".repeat(45), "!", "", "tail"];
    let mut total = 0;
    for piece in pieces.iter() {
        p.process_command(&text(piece));
        total += piece.chars().count();
        let held: usize = p
            .get_buffer()
            .iter()
            .map(|l| match l {
                ReceiptLine::Text(t) => t.content.chars().count(),
                _ => 0,
            })
            .sum();
        assert_eq!(held, total);
    }
}

#[test]
fn text_that_fits_never_overflows() {
    let mut p = PrinterState::new();
    p.set_paper_width(PaperWidth::Width50mm);
    for i in 0..60 {
        p.process_command(&text(&"q".repeat(i % 13 + 1)));
        let last = p.get_buffer().last().unwrap();
        assert!(line_text(last).chars().count() <= 48);
    }
}

#[test]
fn bitmap_to_rgb_samples() {
    // one row of 10 pixels: first byte 1000_0001, second byte 1100_0000
    let samples = PrinterState::bitmap_to_rgb(10, 1, &[0x81, 0xc0]);
    assert_eq!(samples.len(), 30);
    let black: Vec<usize> = (0..10).filter(|&x| samples[3 * x] == 0).collect();
    assert_eq!(black, vec![0, 7, 8, 9]);
    assert!(samples.iter().all(|&s| s == 0 || s == 255));
    let img = image::RgbImage::from_raw(10, 1, samples).unwrap();
    assert_eq!(img.get_pixel(0, 0).0, [0, 0, 0]);
    assert_eq!(img.get_pixel(1, 0).0, [255, 255, 255]);
}

#[test]
fn bitmap_missing_bytes_are_white() {
    let samples = PrinterState::bitmap_to_rgb(8, 2, &[0xff]);
    assert_eq!(&samples[..24], &[0u8; 24][..]);
    assert_eq!(&samples[24..], &[255u8; 24][..]);
    assert!(PrinterState::bitmap_to_rgb(0, 5, &[1, 2]).is_empty());
}
