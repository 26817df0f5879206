use escpos_emulator::config::{pdf_save_path_in, AppConfig, AppMode};
use escpos_emulator::emulator::{EmulatorState, SaveStatus};
use escpos_emulator::escpos::commands::EscPosCommand;
use escpos_emulator::escpos::printer::{PaperWidth, ReceiptLine};

fn text(s: &str) -> EscPosCommand {
    EscPosCommand::Text(s.to_string())
}

#[test]
fn new_emulator_defaults() {
    let e = EmulatorState::new(Some("/home/u/Documents".to_string()));
    assert!(e.get_command_history().is_empty());
    assert_eq!(e.max_history_size, 1000);
    assert_eq!(e.mode, AppMode::PrintAndView);
    assert!(e.saved_pdfs.is_empty());
    assert_eq!(e.active_connections, 0);
    assert_eq!(e.total_commands, 0);
    assert!(e.get_printer_state().get_buffer().is_empty());
    let expected = std::path::Path::new("/home/u/Documents").join("ESC_POS_Receipts");
    assert_eq!(e.pdf_save_path, expected.to_string_lossy());
    assert!(e.start_time <= std::time::SystemTime::now());
}

#[test]
fn history_keeps_last_entries() {
    let mut e = EmulatorState::new(None);
    e.max_history_size = 2;
    e.process_command(&text("one"), "10.0.0.1");
    e.process_command(&text("two"), "10.0.0.2");
    e.process_command(&text("three"), "10.0.0.3");
    let h = e.get_command_history();
    assert_eq!(h.len(), 2);
    assert!(matches!(&h[0].command, EscPosCommand::Text(t) if t == "two"));
    assert!(matches!(&h[1].command, EscPosCommand::Text(t) if t == "three"));
    assert_eq!(h[1].device_ip, "10.0.0.3");
    assert_eq!(e.total_commands, 3);
}

#[test]
fn history_size_zero_keeps_nothing() {
    let mut e = EmulatorState::new(None);
    e.max_history_size = 0;
    e.process_command(&EscPosCommand::CutPaper, "a");
    assert!(e.get_command_history().is_empty());
    assert_eq!(e.total_commands, 1);
    e.max_history_size = 5;
    e.process_command(&EscPosCommand::CutPaper, "a");
    e.clear_history();
    assert!(e.get_command_history().is_empty());
}

#[test]
fn print_mode_uses_main_printer() {
    let mut e = EmulatorState::new(None);
    let due = e.process_command(&text("Hi"), "1.1.1.1");
    assert!(!due);
    let due = e.process_command(&EscPosCommand::CutPaper, "1.1.1.1");
    assert!(!due);
    assert_eq!(e.get_printer_state().get_buffer().len(), 2);
    assert!(e.device_printers.get("1.1.1.1").is_none());
    e.clear_printer_buffer();
    assert!(e.get_printer_state().get_buffer().is_empty());
}

#[test]
fn pdf_mode_uses_device_printers() {
    let mut e = EmulatorState::new(None);
    e.set_mode(AppMode::SaveAsPdf);
    assert!(!e.process_command(&text("from A"), "10.0.0.1"));
    assert!(!e.process_command(&text("from B"), "10.0.0.2"));
    assert!(e.get_printer_state().get_buffer().is_empty());
    assert_eq!(e.device_printers.get("10.0.0.1").unwrap().get_buffer().len(), 1);
    assert_eq!(e.device_printers.get("10.0.0.2").unwrap().get_buffer().len(), 1);
    assert!(e.process_command(&EscPosCommand::CutPaper, "10.0.0.1"));
    let (lines, width) = e.take_device_receipt("10.0.0.1").unwrap();
    assert_eq!(lines.len(), 2);
    assert!(matches!(lines[1], ReceiptLine::Separator));
    assert_eq!(width, PaperWidth::Width80mm);
    assert!(e.device_printers.get("10.0.0.1").unwrap().get_buffer().is_empty());
    assert_eq!(e.device_printers.get("10.0.0.2").unwrap().get_buffer().len(), 1);
    assert!(e.take_device_receipt("10.9.9.9").is_none());
}

#[test]
fn pdf_receipt_ends_with_cut() {
    let mut e = EmulatorState::new(None);
    e.set_mode(AppMode::SaveAsPdf);
    assert!(e.process_command(&EscPosCommand::CutPaper, "dev"));
    let (lines, _) = e.take_device_receipt("dev").unwrap();
    assert_eq!(lines.len(), 1);
    assert!(matches!(lines[0], ReceiptLine::Separator));
}

#[test]
fn modes_do_not_mix() {
    let mut e = EmulatorState::new(None);
    e.process_command(&text("main"), "x");
    e.set_mode(AppMode::SaveAsPdf);
    e.process_command(&text("device"), "x");
    assert_eq!(e.get_printer_state().get_buffer().len(), 1);
    e.set_mode(AppMode::PrintAndView);
    e.process_command(&text(" more"), "x");
    assert_eq!(e.device_printers.get("x").unwrap().get_buffer().len(), 1);
}

#[test]
fn save_log_entries() {
    let mut e = EmulatorState::new(None);
    e.record_folder_failure("2024-01-01 10:00:00".to_string(), "1.2.3.4", "denied");
    e.record_pdf_result("t2".to_string(), "1.2.3.4", "/x/receipt.pdf".to_string(), 5, None);
    e.record_pdf_result("t3".to_string(), "5.6.7.8", "/y/receipt.pdf".to_string(), 2, Some("disk full".to_string()));
    assert_eq!(e.saved_pdfs.len(), 3);
    let first = &e.saved_pdfs[0];
    assert_eq!(first.timestamp, "2024-01-01 10:00:00");
    assert_eq!(first.file_path, "");
    assert_eq!(first.line_count, 0);
    assert!(matches!(&first.status, SaveStatus::Failed(m) if m == "Cannot create folder: denied"));
    assert!(matches!(e.saved_pdfs[1].status, SaveStatus::Success));
    assert_eq!(e.saved_pdfs[1].line_count, 5);
    assert!(matches!(&e.saved_pdfs[2].status, SaveStatus::Failed(m) if m == "disk full"));
    e.clear_saved_pdfs();
    assert!(e.saved_pdfs.is_empty());
}

#[test]
fn receipt_file_names() {
    assert_eq!(
        EmulatorState::receipt_file_name("2024-05-06_07-08-09.123"),
        "receipt_2024-05-06_07-08-09.123.pdf"
    );
    assert_eq!(EmulatorState::receipt_file_name(""), "receipt_.pdf");
}

#[test]
fn paper_width_from_millimetres() {
    let mut e = EmulatorState::new(None);
    e.set_paper_width(50);
    assert_eq!(e.get_printer_state().paper_width, PaperWidth::Width50mm);
    e.set_paper_width(78);
    assert_eq!(e.get_printer_state().paper_width, PaperWidth::Width78mm);
    e.set_paper_width(80);
    assert_eq!(e.get_printer_state().paper_width, PaperWidth::Width80mm);
    e.set_paper_width(50);
    e.set_paper_width(58);
    assert_eq!(e.get_printer_state().paper_width, PaperWidth::Width80mm);
}

#[test]
fn connection_counting() {
    let mut e = EmulatorState::new(None);
    e.connection_closed();
    assert_eq!(e.active_connections, 0);
    e.connection_opened();
    e.connection_opened();
    e.connection_closed();
    assert_eq!(e.active_connections, 1);
}

#[test]
fn setters() {
    let mut e = EmulatorState::new(None);
    e.set_pdf_save_path("/tmp/receipts".to_string());
    assert_eq!(e.pdf_save_path, "/tmp/receipts");
    e.set_mode(AppMode::SaveAsPdf);
    assert_eq!(e.mode, AppMode::SaveAsPdf);
}

#[test]
fn config_defaults() {
    assert_eq!(AppMode::default(), AppMode::PrintAndView);
    let c = AppConfig::default_for(Some("/home/u/Documents".to_string()));
    assert_eq!(c.mode, AppMode::PrintAndView);
    assert_eq!(c.server_port, 9100);
    assert_eq!(c.bind_address, "0.0.0.0");
    assert_eq!(c.paper_width_mm, 80);
    assert_eq!(c.max_history_size, 1000);
    let expected = std::path::Path::new("/home/u/Documents").join("ESC_POS_Receipts");
    assert_eq!(c.pdf_save_path, expected.to_string_lossy());
    let expected = std::path::Path::new(".").join("ESC_POS_Receipts");
    assert_eq!(AppConfig::default_for(None).pdf_save_path, expected.to_string_lossy());
}

#[test]
fn duplicate_keeps_command() {
    let c = EscPosCommand::PrintRasterImage { width_bytes: 3, height: 4, data: vec![9, 8] };
    assert_eq!(format!("{:?}", c.duplicate()), format!("{:?}", c));
    let t = text("abc");
    assert_eq!(format!("{:?}", t.duplicate()), format!("{:?}", t));
}

#[test]
fn failed_save_puts_receipt_back() {
    let mut e = EmulatorState::new(None);
    e.set_mode(AppMode::SaveAsPdf);
    e.process_command(&text("total 5"), "pos1");
    assert!(e.process_command(&EscPosCommand::CutPaper, "pos1"));
    let (lines, _) = e.take_device_receipt("pos1").unwrap();
    assert_eq!(lines.len(), 2);
    e.complete_pdf_save("t".to_string(), "pos1", "/p.pdf".to_string(), lines, Some("disk full".to_string()));
    assert_eq!(e.saved_pdfs.len(), 1);
    assert_eq!(e.saved_pdfs[0].line_count, 2);
    assert!(matches!(&e.saved_pdfs[0].status, SaveStatus::Failed(m) if m == "disk full"));
    let kept = e.device_printers.get("pos1").unwrap().get_buffer();
    assert_eq!(kept.len(), 2);
    assert!(matches!(&kept[0], ReceiptLine::Text(t) if t.content == "total 5"));
    assert!(matches!(kept[1], ReceiptLine::Separator));
    // lines printed meanwhile come after the restored ones
    let (lines, _) = e.take_device_receipt("pos1").unwrap();
    e.process_command(&text("next"), "pos1");
    e.restore_device_receipt("pos1", lines);
    assert_eq!(e.device_printers.get("pos1").unwrap().get_buffer().len(), 3);
    // a device without a printer gets one holding the lines
    e.restore_device_receipt("new", vec![ReceiptLine::Separator]);
    assert_eq!(e.device_printers.get("new").unwrap().get_buffer().len(), 1);
}

#[test]
fn default_save_path_in_documents() {
    let expected = std::path::Path::new("/home/u/Documents").join("ESC_POS_Receipts");
    assert_eq!(pdf_save_path_in(Some("/home/u/Documents".to_string())), expected.to_string_lossy());
    let expected = std::path::Path::new(".").join("ESC_POS_Receipts");
    assert_eq!(pdf_save_path_in(None), expected.to_string_lossy());
    assert_eq!(pdf_save_path_in(Some("/docs/".to_string())), "/docs/ESC_POS_Receipts");
    assert_eq!(pdf_save_path_in(Some(String::new())), "ESC_POS_Receipts");
    let joined = pdf_save_path_in(Some("/home/a/Documents".to_string()));
    assert_ne!(joined, "/home/a/DocumentsESC_POS_Receipts");
    assert!(joined == "/home/a/Documents/ESC_POS_Receipts" || joined == "/home/a/Documents\\ESC_POS_Receipts");
}

#[test]
fn successful_save_logs_and_empties_receipt() {
    let mut e = EmulatorState::new(None);
    e.set_mode(AppMode::SaveAsPdf);
    e.process_command(&text("paid"), "pos2");
    assert!(e.process_command(&EscPosCommand::CutPaper, "pos2"));
    let (lines, width) = e.take_device_receipt("pos2").unwrap();
    assert_eq!(width, PaperWidth::Width80mm);
    e.complete_pdf_save("t".to_string(), "pos2", "/r/receipt_t.pdf".to_string(), lines, None);
    assert_eq!(e.saved_pdfs.len(), 1);
    assert_eq!(e.saved_pdfs[0].file_path, "/r/receipt_t.pdf");
    assert_eq!(e.saved_pdfs[0].device_ip, "pos2");
    assert_eq!(e.saved_pdfs[0].line_count, 2);
    assert!(matches!(e.saved_pdfs[0].status, SaveStatus::Success));
    assert!(e.device_printers.get("pos2").unwrap().get_buffer().is_empty());
}

#[test]
fn connection_count_over_a_run() {
    let mut e = EmulatorState::new(None);
    let events = [true, true, false, true, false, false, true];
    let (mut open, mut closed) = (0u32, 0u32);
    for &ev in events.iter() {
        if ev {
            e.connection_opened();
            open += 1;
        } else {
            e.connection_closed();
            closed += 1;
        }
        assert_eq!(e.active_connections, open - closed);
    }
}
