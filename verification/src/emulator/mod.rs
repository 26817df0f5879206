pub mod devices;

use vstd::prelude::*;
use vstd::string::*;
use std::collections::VecDeque;
use std::time::SystemTime;
use crate::config::{pdf_save_path_in, save_path_for, text_view, AppMode};
use crate::emulator::devices::{device_or_new, DevicePrinters};
use crate::escpos::commands::{CommandView, EscPosCommand};
use crate::escpos::printer::{LineView, PaperWidth, PrinterModel, PrinterState, ReceiptLine, lines_view};

verus! {

#[verifier::external_type_specification]
#[verifier::external_body]
pub struct ExSystemTime(SystemTime);

/// Calls `std::time::SystemTime::now`: the clock's current reading; nothing is
/// stated of it.
#[verifier::external_body]
fn default_system_time() -> SystemTime {
    SystemTime::now()
}

#[derive(Debug)]
pub struct CommandEntry {
    pub timestamp: SystemTime,
    pub command: EscPosCommand,
    pub device_ip: String,
}

#[derive(Clone, Debug)]
pub struct SavedPdfEntry {
    pub timestamp: String,
    pub device_ip: String,
    pub file_path: String,
    pub line_count: usize,
    pub status: SaveStatus,
}

#[derive(Clone, Debug)]
pub enum SaveStatus {
    Success,
    Failed(String),
}

pub struct EmulatorState {
    pub printer_state: PrinterState,
    pub command_history: VecDeque<CommandEntry>,
    pub max_history_size: usize,
    pub mode: AppMode,
    pub pdf_save_path: String,
    /// Per-device printer states for PDF mode (keyed by IP)
    pub device_printers: DevicePrinters,
    /// Log of saved PDFs
    pub saved_pdfs: Vec<SavedPdfEntry>,
    /// Active TCP connections count
    pub active_connections: u32,
    /// Total commands processed
    pub total_commands: u64,
    pub start_time: SystemTime,
}

/// Mathematical value of a history entry (its time of arrival left out).
pub struct CommandEntryView {
    pub command: CommandView,
    pub device_ip: Seq<char>,
}

pub enum SaveStatusView {
    Success,
    Failed(Seq<char>),
}

pub struct SavedPdfView {
    pub timestamp: Seq<char>,
    pub device_ip: Seq<char>,
    pub file_path: Seq<char>,
    pub line_count: usize,
    pub status: SaveStatusView,
}

impl View for CommandEntry {
    type V = CommandEntryView;

    open spec fn view(&self) -> CommandEntryView {
        CommandEntryView { command: self.command@, device_ip: self.device_ip@ }
    }
}

impl View for SaveStatus {
    type V = SaveStatusView;

    open spec fn view(&self) -> SaveStatusView {
        match self {
            SaveStatus::Success => SaveStatusView::Success,
            SaveStatus::Failed(e) => SaveStatusView::Failed(e@),
        }
    }
}

impl View for SavedPdfEntry {
    type V = SavedPdfView;

    open spec fn view(&self) -> SavedPdfView {
        SavedPdfView {
            timestamp: self.timestamp@,
            device_ip: self.device_ip@,
            file_path: self.file_path@,
            line_count: self.line_count,
            status: self.status@,
        }
    }
}

pub open spec fn history_view(s: Seq<CommandEntry>) -> Seq<CommandEntryView> {
    s.map_values(|e: CommandEntry| e@)
}

pub open spec fn saved_view(s: Seq<SavedPdfEntry>) -> Seq<SavedPdfView> {
    s.map_values(|e: SavedPdfEntry| e@)
}

/// The last `max` entries of a history, or all of them when there are fewer.
pub open spec fn keep_last<A>(s: Seq<A>, max: nat) -> Seq<A> {
    if s.len() > max {
        s.subrange(s.len() - max, s.len() as int)
    } else {
        s
    }
}

/// Mathematical value of the emulator (the start time left out).
pub struct EmulatorModel {
    pub printer: PrinterModel,
    pub history: Seq<CommandEntryView>,
    pub max_history_size: usize,
    pub mode: AppMode,
    pub pdf_save_path: Seq<char>,
    pub devices: Map<Seq<char>, PrinterModel>,
    pub saved_pdfs: Seq<SavedPdfView>,
    pub active_connections: u32,
    pub total_commands: u64,
}

impl View for EmulatorState {
    type V = EmulatorModel;

    open spec fn view(&self) -> EmulatorModel {
        EmulatorModel {
            printer: self.printer_state@,
            history: history_view(self.command_history@),
            max_history_size: self.max_history_size,
            mode: self.mode,
            pdf_save_path: self.pdf_save_path@,
            devices: self.device_printers@,
            saved_pdfs: saved_view(self.saved_pdfs@),
            active_connections: self.active_connections,
            total_commands: self.total_commands,
        }
    }
}

impl EmulatorModel {
    /// The emulator after a command from a device: the command joins the history
    /// (which keeps its last `max_history_size` entries) and is counted; in
    /// print-and-view mode it goes to the main printer, in PDF mode to the
    /// device's own printer.
    pub open spec fn after_command(self, c: CommandView, ip: Seq<char>) -> EmulatorModel {
        let base = EmulatorModel {
            history: keep_last(
                self.history.push(CommandEntryView { command: c, device_ip: ip }),
                self.max_history_size as nat,
            ),
            total_commands: (self.total_commands + 1) as u64,
            ..self
        };
        match self.mode {
            AppMode::PrintAndView => EmulatorModel { printer: self.printer.after(c), ..base },
            AppMode::SaveAsPdf => EmulatorModel {
                devices: self.devices.insert(ip, device_or_new(self.devices, ip).after(c)),
                ..base
            },
        }
    }

    /// The emulator once a device's receipt was taken for saving: that device's
    /// receipt is empty.
    pub open spec fn without_receipt(self, ip: Seq<char>) -> EmulatorModel {
        EmulatorModel {
            devices: self.devices.insert(ip, PrinterModel { buffer: Seq::empty(), ..self.devices[ip] }),
            ..self
        }
    }

    /// The emulator once receipt lines that could not be saved were put back at
    /// the start of the device's receipt.
    pub open spec fn with_receipt_back(self, ip: Seq<char>, lines: Seq<LineView>) -> EmulatorModel {
        EmulatorModel {
            devices: self.devices.insert(
                ip,
                PrinterModel {
                    buffer: lines + device_or_new(self.devices, ip).buffer,
                    ..device_or_new(self.devices, ip)
                },
            ),
            ..self
        }
    }

    /// The emulator once a device connected.
    pub open spec fn opened(self) -> EmulatorModel {
        EmulatorModel { active_connections: (self.active_connections + 1) as u32, ..self }
    }

    /// The emulator once a connection ended; the count does not go below zero.
    pub open spec fn closed(self) -> EmulatorModel {
        EmulatorModel {
            active_connections: if self.active_connections == 0 {
                0
            } else {
                (self.active_connections - 1) as u32
            },
            ..self
        }
    }

    pub open spec fn log_entry(self, entry: SavedPdfView) -> EmulatorModel {
        EmulatorModel { saved_pdfs: self.saved_pdfs.push(entry), ..self }
    }
}

/// The paper roll for a width in millimetres; widths other than 50 and 78 mean 80 mm.
pub open spec fn paper_for_mm(width_mm: u32) -> PaperWidth {
    if width_mm == 50 {
        PaperWidth::Width50mm
    } else if width_mm == 78 {
        PaperWidth::Width78mm
    } else {
        PaperWidth::Width80mm
    }
}

/// The name of the file that a receipt saved at `timestamp` goes to.
pub open spec fn receipt_file_name_spec(timestamp: Seq<char>) -> Seq<char> {
    "receipt_"@ + timestamp + ".pdf"@
}

proof fn lemma_history_view_push(s: Seq<CommandEntry>, e: CommandEntry)
    ensures
        history_view(s.push(e)) == history_view(s).push(e@),
{
    assert(history_view(s.push(e)) =~= history_view(s).push(e@));
}

proof fn lemma_history_view_subrange(s: Seq<CommandEntry>, i: int, j: int)
    requires
        0 <= i <= j <= s.len(),
    ensures
        history_view(s.subrange(i, j)) == history_view(s).subrange(i, j),
{
    assert(history_view(s.subrange(i, j)) =~= history_view(s).subrange(i, j));
}

proof fn lemma_saved_view_push(s: Seq<SavedPdfEntry>, e: SavedPdfEntry)
    ensures
        saved_view(s.push(e)) == saved_view(s).push(e@),
{
    assert(saved_view(s.push(e)) =~= saved_view(s).push(e@));
}

/// The history never holds more than `max_history_size` entries, the newest entry
/// is the command just processed (when the history keeps any), and every command
/// is counted.
pub proof fn lemma_history_bounded(m: EmulatorModel, c: CommandView, ip: Seq<char>)
    requires
        m.total_commands < u64::MAX,
    ensures
        m.after_command(c, ip).history.len() <= m.max_history_size,
        m.max_history_size > 0 ==> m.after_command(c, ip).history.last() == (CommandEntryView {
            command: c,
            device_ip: ip,
        }),
        m.after_command(c, ip).total_commands == m.total_commands + 1,
{
}

/// The two modes do not touch each other's receipts: in print-and-view mode the
/// device printers stay as they are, in PDF mode the main printer does.
pub proof fn lemma_modes_isolated(m: EmulatorModel, c: CommandView, ip: Seq<char>)
    ensures
        m.mode == AppMode::PrintAndView ==> m.after_command(c, ip).devices == m.devices,
        m.mode == AppMode::SaveAsPdf ==> m.after_command(c, ip).printer == m.printer,
        m.after_command(c, ip).saved_pdfs == m.saved_pdfs,
        m.after_command(c, ip).mode == m.mode,
{
}

/// In PDF mode the receipt that a paper cut completes ends with that cut, and
/// holds every line the device printed since its receipt was last taken.
pub proof fn lemma_pdf_receipt_ends_with_cut(m: EmulatorModel, ip: Seq<char>)
    requires
        m.mode == AppMode::SaveAsPdf,
    ensures
        m.after_command(CommandView::CutPaper, ip).devices.contains_key(ip),
        m.after_command(CommandView::CutPaper, ip).devices[ip].buffer == device_or_new(
            m.devices,
            ip,
        ).buffer.push(crate::escpos::printer::LineView::Separator),
{
}

/// A receipt whose save failed is not lost: taking it for saving, logging the
/// failure and putting it back leaves the device's receipt as it was.
pub proof fn lemma_failed_save_keeps_receipt(m: EmulatorModel, ip: Seq<char>, entry: SavedPdfView)
    requires
        m.devices.contains_key(ip),
    ensures
        m.without_receipt(ip).log_entry(entry).with_receipt_back(ip, m.devices[ip].buffer)
            == m.log_entry(entry),
{
    let after = m.without_receipt(ip).log_entry(entry).with_receipt_back(ip, m.devices[ip].buffer);
    assert(m.devices[ip].buffer + Seq::<LineView>::empty() =~= m.devices[ip].buffer);
    assert(after.devices =~= m.devices);
}

/// Each device has its own printer: a command from one device leaves every
/// other device's printer as it was.
pub proof fn lemma_devices_independent(
    m: EmulatorModel,
    c: CommandView,
    ip: Seq<char>,
    other: Seq<char>,
)
    requires
        other != ip,
    ensures
        m.after_command(c, ip).devices.contains_key(other) == m.devices.contains_key(other),
        m.devices.contains_key(other) ==> m.after_command(c, ip).devices[other] == m.devices[other],
{
}

/// The emulator after a run of connection events: `true` when a device
/// connects, `false` when a connection ends.
pub open spec fn after_connection_events(m: EmulatorModel, events: Seq<bool>) -> EmulatorModel
    decreases events.len(),
{
    if events.len() == 0 {
        m
    } else {
        let before = after_connection_events(m, events.drop_last());
        if events.last() {
            before.opened()
        } else {
            before.closed()
        }
    }
}

/// Number of events in which a device connects.
pub open spec fn opens(events: Seq<bool>) -> nat
    decreases events.len(),
{
    if events.len() == 0 {
        0
    } else {
        opens(events.drop_last()) + if events.last() {
            1nat
        } else {
            0nat
        }
    }
}

/// Number of events in which a connection ends.
pub open spec fn closes(events: Seq<bool>) -> nat
    decreases events.len(),
{
    if events.len() == 0 {
        0
    } else {
        closes(events.drop_last()) + if events.last() {
            0nat
        } else {
            1nat
        }
    }
}

/// Every connection ends after it began: no prefix of the run ends more
/// connections than it began.
pub open spec fn connections_nested(events: Seq<bool>) -> bool {
    forall|k: int| 0 <= k <= events.len() ==> #[trigger] closes(events.take(k)) <= opens(events.take(k))
}

/// Over a server's life, counted from no connection, the count of active
/// connections is the number of connections that began and have not ended;
/// nothing else in the emulator changes.
pub proof fn lemma_connection_count(m: EmulatorModel, events: Seq<bool>)
    requires
        m.active_connections == 0,
        connections_nested(events),
        opens(events) <= u32::MAX,
    ensures
        after_connection_events(m, events) == (EmulatorModel {
            active_connections: (opens(events) - closes(events)) as u32,
            ..m
        }),
        closes(events) <= opens(events),
    decreases events.len(),
{
    assert(events.take(events.len() as int) =~= events);
    assert(closes(events.take(events.len() as int)) <= opens(events.take(events.len() as int)));
    if events.len() > 0 {
        let prefix = events.drop_last();
        assert forall|k: int| 0 <= k <= prefix.len() implies #[trigger] closes(prefix.take(k))
            <= opens(prefix.take(k)) by {
            assert(prefix.take(k) =~= events.take(k));
            assert(closes(events.take(k)) <= opens(events.take(k)));
        }
        lemma_connection_count(m, prefix);
    }
}

impl EmulatorState {
    /// A fresh emulator, saving receipts to `ESC_POS_Receipts` in the given
    /// documents folder (`None` when there is none).
    pub fn new(documents: Option<String>) -> (s: Self)
        ensures
            s@.printer == PrinterModel::initial(),
            s@.history == Seq::<CommandEntryView>::empty(),
            s@.max_history_size == 1000,
            s@.mode == AppMode::PrintAndView,
            s@.devices == Map::<Seq<char>, PrinterModel>::empty(),
            s@.saved_pdfs == Seq::<SavedPdfView>::empty(),
            s@.active_connections == 0,
            s@.total_commands == 0,
            save_path_for(text_view(documents), s@.pdf_save_path),
    {
        let s = Self {
            printer_state: PrinterState::new(),
            command_history: VecDeque::new(),
            max_history_size: 1000,
            mode: AppMode::PrintAndView,
            pdf_save_path: pdf_save_path_in(documents),
            device_printers: DevicePrinters::new(),
            saved_pdfs: Vec::new(),
            active_connections: 0,
            total_commands: 0,
            start_time: default_system_time(),
        };
        assert(history_view(s.command_history@) =~= Seq::<CommandEntryView>::empty());
        assert(saved_view(s.saved_pdfs@) =~= Seq::<SavedPdfView>::empty());
        s
    }

    /// Process an incoming ESC/POS command from a specific device. Returns whether
    /// the device's receipt is complete and is to be saved as a PDF: in PDF mode,
    /// on a paper cut.
    pub fn process_command(&mut self, command: &EscPosCommand, device_ip: &str) -> (save_due: bool)
        requires
            old(self).total_commands < u64::MAX,
        ensures
            final(self)@ == old(self)@.after_command(command@, device_ip@),
            save_due == (old(self).mode == AppMode::SaveAsPdf && command@ is CutPaper),
    {
        // Record in command history
        let entry = CommandEntry {
            timestamp: default_system_time(),
            command: command.duplicate(),
            device_ip: device_ip.to_owned(),
        };
        let ghost full = history_view(self.command_history@).push(entry@);
        proof {
            lemma_history_view_push(self.command_history@, entry);
        }
        self.command_history.push_back(entry);
        while self.command_history.len() > self.max_history_size
            invariant
                self.max_history_size == old(self).max_history_size,
                self.printer_state == old(self).printer_state,
                self.device_printers == old(self).device_printers,
                self.mode == old(self).mode,
                self.pdf_save_path == old(self).pdf_save_path,
                self.saved_pdfs == old(self).saved_pdfs,
                self.active_connections == old(self).active_connections,
                self.total_commands == old(self).total_commands,
                self.command_history@.len() <= full.len(),
                history_view(self.command_history@) == full.subrange(
                    full.len() - self.command_history@.len(),
                    full.len() as int,
                ),
                full.len() > self.max_history_size ==> self.command_history@.len()
                    >= self.max_history_size,
                full.len() <= self.max_history_size ==> self.command_history@.len() == full.len(),
            decreases self.command_history@.len(),
        {
            let ghost before = self.command_history@;
            self.command_history.pop_front();
            proof {
                lemma_history_view_subrange(before, 1, before.len() as int);
            }
        }
        proof {
            if full.len() <= self.max_history_size {
                assert(full.subrange(0, full.len() as int) =~= full);
            }
        }
        self.total_commands = self.total_commands + 1;

        match self.mode {
            AppMode::PrintAndView => {
                // Normal mode: process into the main printer state for GUI display
                self.printer_state.process_command(command);
                false
            },
            AppMode::SaveAsPdf => {
                // PDF mode: process into per-device printer state
                self.device_printers.process_command(device_ip, command);
                // On CutPaper, the accumulated receipt is to be saved as PDF
                match command {
                    EscPosCommand::CutPaper => true,
                    _ => false,
                }
            },
        }
    }

    /// Takes the receipt that a device completed, with its paper width, for saving;
    /// the device's receipt is left empty. `None` when the device has no printer.
    pub fn take_device_receipt(&mut self, device_ip: &str) -> (r: Option<(Vec<ReceiptLine>, PaperWidth)>)
        ensures
            match r {
                Some((lines, width)) => {
                    &&& old(self)@.devices.contains_key(device_ip@)
                    &&& lines_view(lines@) == old(self)@.devices[device_ip@].buffer
                    &&& width == old(self)@.devices[device_ip@].paper_width
                    &&& final(self)@ == old(self)@.without_receipt(device_ip@)
                },
                None => !old(self)@.devices.contains_key(device_ip@) && final(self)@ == old(self)@,
            },
    {
        self.device_printers.take_buffer(device_ip)
    }

    /// Puts back the lines of a receipt that could not be saved, so that no data
    /// is lost: they come first in the device's receipt again.
    pub fn restore_device_receipt(&mut self, device_ip: &str, lines: Vec<ReceiptLine>)
        ensures
            final(self)@ == old(self)@.with_receipt_back(device_ip@, lines_view(lines@)),
    {
        self.device_printers.put_back(device_ip, lines);
    }

    /// The last step of saving a receipt taken with `take_device_receipt`: logs
    /// the outcome of writing its `lines` to `file_path` and, when writing
    /// failed, puts the lines back so that no data is lost.
    pub fn complete_pdf_save(
        &mut self,
        timestamp: String,
        device_ip: &str,
        file_path: String,
        lines: Vec<ReceiptLine>,
        error: Option<String>,
    )
        ensures
            final(self)@ == ({
                let logged = old(self)@.log_entry(
                    SavedPdfView {
                        timestamp: timestamp@,
                        device_ip: device_ip@,
                        file_path: file_path@,
                        line_count: lines@.len() as usize,
                        status: match error {
                            None => SaveStatusView::Success,
                            Some(e) => SaveStatusView::Failed(e@),
                        },
                    },
                );
                match error {
                    None => logged,
                    Some(_) => logged.with_receipt_back(device_ip@, lines_view(lines@)),
                }
            }),
    {
        let line_count = lines.len();
        match error {
            None => {
                self.record_pdf_result(timestamp, device_ip, file_path, line_count, None);
            },
            Some(e) => {
                self.record_pdf_result(timestamp, device_ip, file_path, line_count, Some(e));
                self.restore_device_receipt(device_ip, lines);
            },
        }
    }

    /// The name of the file for a receipt saved at `timestamp`: `receipt_<timestamp>.pdf`.
    pub fn receipt_file_name(timestamp: &str) -> (name: String)
        ensures
            name@ == receipt_file_name_spec(timestamp@),
    {
        let mut name = "receipt_".to_owned();
        name.append(timestamp);
        name.append(".pdf");
        name
    }

    fn push_saved(&mut self, entry: SavedPdfEntry)
        ensures
            final(self)@ == old(self)@.log_entry(entry@),
    {
        proof {
            lemma_saved_view_push(self.saved_pdfs@, entry);
        }
        self.saved_pdfs.push(entry);
    }

    /// Logs a receipt whose device folder could not be created: nothing was saved,
    /// no line was taken, and the error says so.
    pub fn record_folder_failure(&mut self, timestamp: String, device_ip: &str, error: &str)
        ensures
            final(self)@ == old(self)@.log_entry(
                SavedPdfView {
                    timestamp: timestamp@,
                    device_ip: device_ip@,
                    file_path: Seq::empty(),
                    line_count: 0,
                    status: SaveStatusView::Failed("Cannot create folder: "@ + error@),
                },
            ),
    {
        let mut message = "Cannot create folder: ".to_owned();
        message.append(error);
        let entry = SavedPdfEntry {
            timestamp,
            device_ip: device_ip.to_owned(),
            file_path: String::new(),
            line_count: 0,
            status: SaveStatus::Failed(message),
        };
        self.push_saved(entry);
    }

    /// Logs the outcome of writing a receipt of `line_count` lines to `file_path`:
    /// a success, or the writer's error.
    pub fn record_pdf_result(
        &mut self,
        timestamp: String,
        device_ip: &str,
        file_path: String,
        line_count: usize,
        error: Option<String>,
    )
        ensures
            final(self)@ == old(self)@.log_entry(
                SavedPdfView {
                    timestamp: timestamp@,
                    device_ip: device_ip@,
                    file_path: file_path@,
                    line_count,
                    status: match error {
                        None => SaveStatusView::Success,
                        Some(e) => SaveStatusView::Failed(e@),
                    },
                },
            ),
    {
        let status = match error {
            None => SaveStatus::Success,
            Some(e) => SaveStatus::Failed(e),
        };
        let entry = SavedPdfEntry {
            timestamp,
            device_ip: device_ip.to_owned(),
            file_path,
            line_count,
            status,
        };
        self.push_saved(entry);
    }

    /// A device connected.
    pub fn connection_opened(&mut self)
        requires
            old(self).active_connections < u32::MAX,
        ensures
            final(self)@ == old(self)@.opened(),
    {
        self.active_connections = self.active_connections + 1;
    }

    /// A device disconnected; the count does not go below zero.
    pub fn connection_closed(&mut self)
        ensures
            final(self)@ == old(self)@.closed(),
    {
        self.active_connections = self.active_connections.saturating_sub(1);
    }

    pub fn get_command_history(&self) -> (h: &VecDeque<CommandEntry>)
        ensures
            h@ == self.command_history@,
    {
        &self.command_history
    }

    pub fn clear_history(&mut self)
        ensures
            final(self)@ == (EmulatorModel { history: Seq::empty(), ..old(self)@ }),
    {
        self.command_history.clear();
        assert(history_view(self.command_history@) =~= Seq::<CommandEntryView>::empty());
    }

    pub fn clear_printer_buffer(&mut self)
        ensures
            final(self)@ == (EmulatorModel {
                printer: PrinterModel { buffer: Seq::empty(), ..old(self)@.printer },
                ..old(self)@
            }),
    {
        self.printer_state.clear_buffer();
    }

    pub fn clear_saved_pdfs(&mut self)
        ensures
            final(self)@ == (EmulatorModel { saved_pdfs: Seq::empty(), ..old(self)@ }),
    {
        self.saved_pdfs.clear();
        assert(saved_view(self.saved_pdfs@) =~= Seq::<SavedPdfView>::empty());
    }

    pub fn get_printer_state(&self) -> (p: &PrinterState)
        ensures
            p == &self.printer_state,
    {
        &self.printer_state
    }

    pub fn set_paper_width(&mut self, width_mm: u32)
        ensures
            final(self)@ == (EmulatorModel {
                printer: PrinterModel { paper_width: paper_for_mm(width_mm), ..old(self)@.printer },
                ..old(self)@
            }),
    {
        let paper_width = if width_mm == 50 {
            PaperWidth::Width50mm
        } else if width_mm == 78 {
            PaperWidth::Width78mm
        } else {
            PaperWidth::Width80mm
        };
        self.printer_state.set_paper_width(paper_width);
    }

    pub fn set_mode(&mut self, mode: AppMode)
        ensures
            final(self)@ == (EmulatorModel { mode, ..old(self)@ }),
    {
        self.mode = mode;
    }

    pub fn set_pdf_save_path(&mut self, path: String)
        ensures
            final(self)@ == (EmulatorModel { pdf_save_path: path@, ..old(self)@ }),
    {
        self.pdf_save_path = path;
    }
}

} // verus!
