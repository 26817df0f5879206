use std::collections::VecDeque;
use escpos_emulator::config::{AppConfig, AppMode};
use escpos_emulator::emulator::{EmulatorState, SaveStatus, SavedPdfEntry};
use escpos_emulator::escpos::commands::{EscPosCommand, Font, Justification};
use escpos_emulator::escpos::printer::PaperWidth;
use escpos_emulator::export::pdf_text::{has_non_ascii, pdf_font_for, PdfFont};
use escpos_emulator::gui::app::{panel_for, Panel, Tab};
use escpos_emulator::gui::command_log::{command_search_text, describe_command, summary_text, time_ago_text, CommandLog};
use escpos_emulator::gui::receipt_viewer::{hash_bytes, separator_text, text_display_size};
use escpos_emulator::gui::save_status_panel::SaveStatusPanel;
use escpos_emulator::gui::settings_panel::SettingsPanel;
use escpos_emulator::text::{chars_of, contains_chars, decimal_text, elapsed_text, trim_text};

fn all_commands() -> Vec<EscPosCommand> {
    vec![
        EscPosCommand::Text("Hello \"quoted\"".to_string()),
        EscPosCommand::NewLine,
        EscPosCommand::LineFeed,
        EscPosCommand::CarriageReturn,
        EscPosCommand::InitializePrinter,
        EscPosCommand::SetFont(Font::FontA),
        EscPosCommand::SetFont(Font::FontB),
        EscPosCommand::SetJustification(Justification::Left),
        EscPosCommand::SetJustification(Justification::Center),
        EscPosCommand::SetJustification(Justification::Right),
        EscPosCommand::SetEmphasis(true),
        EscPosCommand::SetUnderline(false),
        EscPosCommand::SetItalic(true),
        EscPosCommand::SetLineHeight(24),
        EscPosCommand::SetFontSize(0),
        EscPosCommand::SetCodepage(255),
        EscPosCommand::CutPaper,
        EscPosCommand::PrintImage(vec![0, 1, 255]),
        EscPosCommand::PrintImage(vec![]),
        EscPosCommand::PrintRasterImage { width_bytes: 65535, height: 7, data: vec![10, 20] },
        EscPosCommand::Unknown(vec![27, 99]),
    ]
}

#[test]
fn search_text_is_debug_form() {
    for c in all_commands() {
        match &c {
            EscPosCommand::Text(t) => assert_eq!(command_search_text(&c), *t),
            _ => assert_eq!(command_search_text(&c), format!("{:?}", c)),
        }
    }
}

#[test]
fn command_descriptions() {
    assert_eq!(describe_command(&EscPosCommand::Text("abc".into())), "📝 abc");
    assert_eq!(describe_command(&EscPosCommand::NewLine), "↵ NewLine");
    assert_eq!(describe_command(&EscPosCommand::CarriageReturn), "↩️ CR");
    assert_eq!(describe_command(&EscPosCommand::SetFont(Font::FontB)), "🔤 Font: FontB");
    assert_eq!(describe_command(&EscPosCommand::SetJustification(Justification::Center)), "📐 Align: Center");
    assert_eq!(describe_command(&EscPosCommand::SetEmphasis(true)), "💪 Bold: ON");
    assert_eq!(describe_command(&EscPosCommand::SetUnderline(false)), "➖ Underline: OFF");
    assert_eq!(describe_command(&EscPosCommand::CutPaper), "✂️ Cut Paper");
    assert_eq!(describe_command(&EscPosCommand::PrintImage(vec![1])), "🖼️ Bit Image (ESC *)");
    assert_eq!(
        describe_command(&EscPosCommand::PrintRasterImage { width_bytes: 2, height: 5, data: vec![] }),
        "🖼️ Raster 16×5"
    );
    assert_eq!(describe_command(&EscPosCommand::SetCodepage(16)), "🌐 CP16");
    assert_eq!(describe_command(&EscPosCommand::SetLineHeight(30)), "📏 LineH: 30");
    assert_eq!(describe_command(&EscPosCommand::SetFontSize(12)), "🔤 Size: 12");
    assert_eq!(describe_command(&EscPosCommand::InitializePrinter), "🔄 Init Printer");
    assert_eq!(describe_command(&EscPosCommand::Unknown(vec![1, 2, 3])), "❓ Unknown (3 bytes)");
}

#[test]
fn elapsed_texts() {
    assert_eq!(elapsed_text(0), "0s");
    assert_eq!(elapsed_text(59), "59s");
    assert_eq!(elapsed_text(60), "1m 0s");
    assert_eq!(elapsed_text(185), "3m 5s");
    assert_eq!(elapsed_text(3600), "1h 0m");
    assert_eq!(elapsed_text(7625), "2h 7m");
    assert_eq!(time_ago_text(42), "42s ago");
    assert_eq!(time_ago_text(3725), "1h 2m ago");
}

#[test]
fn decimal_numerals() {
    assert_eq!(decimal_text(0), "0");
    assert_eq!(decimal_text(7), "7");
    assert_eq!(decimal_text(1234567890), "1234567890");
    assert_eq!(decimal_text(u64::MAX), u64::MAX.to_string());
}

fn entry_history(cmds: Vec<EscPosCommand>) -> VecDeque<escpos_emulator::emulator::CommandEntry> {
    let mut e = EmulatorState::new(None);
    for c in cmds.iter() {
        e.process_command(c, "127.0.0.1");
    }
    e.command_history
}

#[test]
fn filter_matches_case_insensitively() {
    let history = entry_history(vec![
        EscPosCommand::Text("Hello World".into()),
        EscPosCommand::SetFont(Font::FontA),
        EscPosCommand::Text("ÄPFEL".into()),
    ]);
    let mut log = CommandLog::new();
    assert!(log.matches_filter(&history[0]));
    log.filter_text = "WORLD".into();
    assert!(log.matches_filter(&history[0]));
    assert!(!log.matches_filter(&history[1]));
    log.filter_text = "setfont(fonta".into();
    assert!(log.matches_filter(&history[1]));
    log.filter_text = "äpf".into();
    assert!(log.matches_filter(&history[2]));
}

#[test]
fn display_selection_newest_first() {
    let history = entry_history(vec![
        EscPosCommand::Text("a1".into()),
        EscPosCommand::NewLine,
        EscPosCommand::Text("a2".into()),
        EscPosCommand::Text("b".into()),
        EscPosCommand::Text("a3".into()),
    ]);
    let mut log = CommandLog::new();
    assert_eq!(log.show_timestamps, true);
    assert_eq!(log.show_device_ip, true);
    assert_eq!(log.max_display_lines, 1000);
    let (shown, matched) = log.select_for_display(&history);
    assert_eq!(shown, vec![4, 3, 2, 1, 0]);
    assert_eq!(matched, 5);
    log.filter_text = "A".into();
    let (shown, matched) = log.select_for_display(&history);
    assert_eq!(shown, vec![4, 2, 0]);
    assert_eq!(matched, 3);
    log.max_display_lines = 2;
    let (shown, matched) = log.select_for_display(&history);
    assert_eq!(shown, vec![4, 2]);
    assert_eq!(matched, 3);
}

#[test]
fn fnv_hash() {
    assert_eq!(hash_bytes(&[]), 0xcbf29ce484222325);
    assert_eq!(hash_bytes(b"a"), 0xaf63dc4c8601ec8c);
    assert_eq!(hash_bytes(b"foobar"), 0x85944171f73967e8);
}

#[test]
fn display_sizes_and_separator() {
    assert_eq!(text_display_size(0), 11);
    assert_eq!(text_display_size(8), 11);
    assert_eq!(text_display_size(12), 13);
    assert_eq!(text_display_size(20), 15);
    assert_eq!(text_display_size(32), 18);
    assert_eq!(text_display_size(33), 22);
    assert_eq!(separator_text(3), "───");
    assert_eq!(separator_text(0), "");
}

#[test]
fn save_panel_counts() {
    let entry = |status: SaveStatus| SavedPdfEntry {
        timestamp: "t".into(),
        device_ip: "d".into(),
        file_path: "f".into(),
        line_count: 1,
        status,
    };
    let log = vec![entry(SaveStatus::Success), entry(SaveStatus::Failed("x".into())), entry(SaveStatus::Success)];
    assert_eq!(SaveStatusPanel::save_counts(&log), (2, 1));
    assert_eq!(SaveStatusPanel::save_counts(&vec![]), (0, 0));
    let _panel = SaveStatusPanel::new();
}

#[test]
fn tab_default() {
    assert_eq!(Tab::default(), Tab::Receipt);
}

#[test]
fn non_ascii_and_fonts() {
    assert!(!has_non_ascii("plain ASCII ~\u{7f}"));
    assert!(has_non_ascii("مرحبا"));
    assert!(has_non_ascii("caf\u{e9}"));
    assert_eq!(pdf_font_for("مرحبا", false, true), PdfFont::Arabic);
    assert_eq!(pdf_font_for("مرحبا", true, false), PdfFont::CourierBold);
    assert_eq!(pdf_font_for("hello", true, true), PdfFont::CourierBold);
    assert_eq!(pdf_font_for("hello", false, true), PdfFont::Courier);
}

#[test]
fn trimming_matches_std() {
    for s in ["", "  ", " a b ", "\u{3000}x\u{85}", "\t\r\nTrue\r\n", "\u{a0}y"] {
        assert_eq!(trim_text(s), s.trim());
    }
}

#[test]
fn contains_runs() {
    let hay = chars_of("hello world");
    assert!(contains_chars(&hay, &chars_of("lo w")));
    assert!(contains_chars(&hay, &chars_of("")));
    assert!(!contains_chars(&hay, &chars_of("low")));
    assert!(!contains_chars(&chars_of("ab"), &chars_of("abc")));
}

#[test]
fn settings_panel_decisions() {
    let mut config = AppConfig::default_for(None);
    config.pdf_save_path = "/data/receipts".into();
    let mut panel = SettingsPanel::from_config(&config);
    assert!(panel.status_message.is_none());
    assert_eq!(panel.pdf_path_input, "/data/receipts");

    let mut state = EmulatorState::new(None);
    panel.apply_pdf_path(&mut state);
    assert_eq!(state.pdf_save_path, "/data/receipts");
    assert_eq!(panel.status_message, Some(("PDF save path updated".to_string(), true)));

    SettingsPanel::select_paper_width(&mut state, 50);
    assert_eq!(state.printer_state.paper_width, PaperWidth::Width50mm);
    SettingsPanel::select_paper_width(&mut state, 50);
    assert_eq!(state.printer_state.paper_width, PaperWidth::Width50mm);
    assert_eq!(SettingsPanel::paper_width_mm(PaperWidth::Width78mm), 78);

    state.set_mode(AppMode::SaveAsPdf);
    state.max_history_size = 77;
    let c = SettingsPanel::settings_config(&state);
    assert_eq!(c.mode, AppMode::SaveAsPdf);
    assert_eq!(c.server_port, 9100);
    assert_eq!(c.bind_address, "0.0.0.0");
    assert_eq!(c.paper_width_mm, 50);
    assert_eq!(c.pdf_save_path, "/data/receipts");
    assert_eq!(c.max_history_size, 77);

    panel.report_save(Ok(()));
    assert_eq!(panel.status_message, Some(("✅ Settings saved successfully".to_string(), true)));
    panel.report_save(Err("read-only".into()));
    assert_eq!(panel.status_message, Some(("❌ Failed to save: read-only".to_string(), false)));

    panel.report_install(Ok((true, String::new())));
    assert_eq!(panel.status_message, Some(("✅ Printer installed successfully".to_string(), true)));
    panel.report_install(Ok((false, "access denied".into())));
    assert_eq!(panel.status_message, Some(("❌ access denied".to_string(), false)));
    panel.report_uninstall(Err("no shell".into()));
    assert_eq!(panel.status_message, Some(("❌ no shell".to_string(), false)));
    panel.report_uninstall(Ok((true, String::new())));
    assert_eq!(panel.status_message, Some(("✅ Printer uninstalled".to_string(), true)));

    panel.report_status_check(Some("  \r\n".into()));
    assert_eq!(panel.status_message, Some(("ℹ️ Virtual printer not installed".to_string(), false)));
    panel.report_status_check(Some("\nName : P\n".into()));
    assert_eq!(panel.status_message, Some(("✅ Installed: Name : P".to_string(), true)));
    panel.report_status_check(None);
    assert_eq!(panel.status_message, Some(("ℹ️ Virtual printer not installed".to_string(), false)));

    panel.report_connection_test(Some("True\r\n".into()));
    assert_eq!(panel.status_message, Some(("✅ Connection to port 9100 successful".to_string(), true)));
    panel.report_connection_test(Some("False\r\n".into()));
    assert_eq!(panel.status_message, Some(("❌ Connection to port 9100 failed".to_string(), false)));
    panel.report_connection_test(None);
    assert_eq!(panel.status_message, Some(("❌ Cannot test connection".to_string(), false)));

    assert_eq!(SettingsPanel::picked_folder("  C:\\Receipts \r\n"), Some("C:\\Receipts".to_string()));
    assert_eq!(SettingsPanel::picked_folder(" \n"), None);
}

#[test]
fn panel_per_tab_and_mode() {
    assert_eq!(panel_for(Tab::Receipt, AppMode::PrintAndView), Panel::ReceiptViewer);
    assert_eq!(panel_for(Tab::Receipt, AppMode::SaveAsPdf), Panel::SaveStatus);
    assert_eq!(panel_for(Tab::Commands, AppMode::SaveAsPdf), Panel::CommandLog);
    assert_eq!(panel_for(Tab::Settings, AppMode::PrintAndView), Panel::Settings);
}

#[test]
fn command_log_summary_line() {
    assert_eq!(summary_text(12, 5, 5), "Total: 12 | Displayed: 5 | Filtered: 5");
    assert_eq!(summary_text(0, 0, 0), "Total: 0 | Displayed: 0 | Filtered: 0");
}
