use vstd::prelude::*;
use crate::config::AppConfig;
use crate::emulator::{EmulatorModel, EmulatorState, paper_for_mm};
use crate::escpos::printer::{PaperWidth, PrinterModel};
use crate::text::{chars_of, contains_chars, contains_run, push_str, trim_spec, trim_text};

verus! {

pub struct SettingsPanel {
    /// (message, is_success)
    pub status_message: Option<(String, bool)>,
    pub pdf_path_input: String,
}

/// The message a panel shows, as text.
pub open spec fn message_view(m: Option<(String, bool)>) -> Option<(Seq<char>, bool)> {
    match m {
        Some((text, ok)) => Some((text@, ok)),
        None => None,
    }
}

/// The width in millimetres of a paper roll.
pub open spec fn paper_mm_spec(w: PaperWidth) -> u32 {
    match w {
        PaperWidth::Width50mm => 50,
        PaperWidth::Width78mm => 78,
        PaperWidth::Width80mm => 80,
    }
}

/// The outcome of running a printer-management command: `Ok((succeeded, error
/// output))`, or the reason it could not run.
pub open spec fn management_message(
    outcome: Result<(bool, Seq<char>), Seq<char>>,
    done: Seq<char>,
) -> (Seq<char>, bool) {
    match outcome {
        Ok((true, _)) => (done, true),
        Ok((false, err)) => ("❌ "@ + err, false),
        Err(e) => ("❌ "@ + e, false),
    }
}

fn text(s: &str) -> (r: String)
    ensures
        r@ == s@,
{
    s.to_owned()
}

impl SettingsPanel {
    /// A panel whose path field holds the configured save path, with no message.
    pub fn from_config(config: &AppConfig) -> (p: Self)
        ensures
            p.status_message is None,
            p.pdf_path_input@ == config.pdf_save_path@,
    {
        SettingsPanel { status_message: None, pdf_path_input: config.pdf_save_path.clone() }
    }

    /// The width in millimetres of a paper roll.
    pub fn paper_width_mm(w: PaperWidth) -> (mm: u32)
        ensures
            mm == paper_mm_spec(w),
    {
        match w {
            PaperWidth::Width50mm => 50,
            PaperWidth::Width78mm => 78,
            PaperWidth::Width80mm => 80,
        }
    }

    /// "Apply": the emulator saves to the path typed in the field.
    pub fn apply_pdf_path(&mut self, state: &mut EmulatorState)
        ensures
            final(state)@ == (EmulatorModel {
                pdf_save_path: old(self).pdf_path_input@,
                ..old(state)@
            }),
            final(self).pdf_path_input == old(self).pdf_path_input,
            message_view(final(self).status_message) == Some(("PDF save path updated"@, true)),
    {
        let path = self.pdf_path_input.clone();
        state.set_pdf_save_path(path);
        self.status_message = Some((text("PDF save path updated"), true));
    }

    /// A paper width chosen in millimetres; the printer changes only when the
    /// choice differs from the loaded paper.
    pub fn select_paper_width(state: &mut EmulatorState, selected_mm: u32)
        ensures
            final(state)@ == (if selected_mm == paper_mm_spec(old(state).printer_state.paper_width) {
                old(state)@
            } else {
                EmulatorModel {
                    printer: PrinterModel {
                        paper_width: paper_for_mm(selected_mm),
                        ..old(state)@.printer
                    },
                    ..old(state)@
                }
            }),
    {
        let current = Self::paper_width_mm(state.printer_state.paper_width);
        if selected_mm != current {
            state.set_paper_width(selected_mm);
        }
    }

    /// The configuration "Save Settings" writes: the emulator's mode, paper, save
    /// path and history size, on port 9100 of every interface.
    pub fn settings_config(state: &EmulatorState) -> (c: AppConfig)
        ensures
            c.mode == state.mode,
            c.server_port == 9100,
            c.bind_address@ == "0.0.0.0"@,
            c.paper_width_mm == paper_mm_spec(state.printer_state.paper_width),
            c.pdf_save_path@ == state.pdf_save_path@,
            c.max_history_size == state.max_history_size,
    {
        AppConfig {
            mode: state.mode,
            server_port: 9100,
            bind_address: text("0.0.0.0"),
            paper_width_mm: Self::paper_width_mm(state.printer_state.paper_width),
            pdf_save_path: state.pdf_save_path.clone(),
            max_history_size: state.max_history_size,
        }
    }

    /// The message after writing the configuration.
    pub fn report_save(&mut self, result: Result<(), String>)
        ensures
            final(self).pdf_path_input == old(self).pdf_path_input,
            message_view(final(self).status_message) == Some(
                match result {
                    Ok(()) => ("✅ Settings saved successfully"@, true),
                    Err(e) => ("❌ Failed to save: "@ + e@, false),
                },
            ),
    {
        match result {
            Ok(()) => {
                self.status_message = Some((text("✅ Settings saved successfully"), true));
            },
            Err(e) => {
                let mut m = text("❌ Failed to save: ");
                push_str(&mut m, e.as_str());
                self.status_message = Some((m, false));
            },
        }
    }

    fn report_management(&mut self, outcome: Result<(bool, String), String>, done: &str)
        ensures
            final(self).pdf_path_input == old(self).pdf_path_input,
            message_view(final(self).status_message) == Some(
                management_message(
                    match outcome {
                        Ok((ok, err)) => Ok((ok, err@)),
                        Err(e) => Err(e@),
                    },
                    done@,
                ),
            ),
    {
        match outcome {
            Ok((true, _)) => {
                self.status_message = Some((text(done), true));
            },
            Ok((false, err)) => {
                let mut m = text("❌ ");
                push_str(&mut m, err.as_str());
                self.status_message = Some((m, false));
            },
            Err(e) => {
                let mut m = text("❌ ");
                push_str(&mut m, e.as_str());
                self.status_message = Some((m, false));
            },
        }
    }

    /// The message after installing the virtual printer.
    pub fn report_install(&mut self, outcome: Result<(bool, String), String>)
        ensures
            final(self).pdf_path_input == old(self).pdf_path_input,
            message_view(final(self).status_message) == Some(
                management_message(
                    match outcome {
                        Ok((ok, err)) => Ok((ok, err@)),
                        Err(e) => Err(e@),
                    },
                    "✅ Printer installed successfully"@,
                ),
            ),
    {
        self.report_management(outcome, "✅ Printer installed successfully");
    }

    /// The message after removing the virtual printer.
    pub fn report_uninstall(&mut self, outcome: Result<(bool, String), String>)
        ensures
            final(self).pdf_path_input == old(self).pdf_path_input,
            message_view(final(self).status_message) == Some(
                management_message(
                    match outcome {
                        Ok((ok, err)) => Ok((ok, err@)),
                        Err(e) => Err(e@),
                    },
                    "✅ Printer uninstalled"@,
                ),
            ),
    {
        self.report_management(outcome, "✅ Printer uninstalled");
    }

    /// The message after asking for the printer's status: the query's output
    /// when it ran and succeeded, `None` otherwise.
    pub fn report_status_check(&mut self, output: Option<String>)
        ensures
            final(self).pdf_path_input == old(self).pdf_path_input,
            message_view(final(self).status_message) == Some(
                match output {
                    Some(out) => if trim_spec(out@).len() == 0 {
                        ("ℹ️ Virtual printer not installed"@, false)
                    } else {
                        ("✅ Installed: "@ + trim_spec(out@), true)
                    },
                    None => ("ℹ️ Virtual printer not installed"@, false),
                },
            ),
    {
        match output {
            Some(out) => {
                let trimmed = trim_text(out.as_str());
                if trimmed.as_str().is_empty() {
                    self.status_message = Some((text("ℹ️ Virtual printer not installed"), false));
                } else {
                    let mut m = text("✅ Installed: ");
                    push_str(&mut m, trimmed.as_str());
                    self.status_message = Some((m, true));
                }
            },
            None => {
                self.status_message = Some((text("ℹ️ Virtual printer not installed"), false));
            },
        }
    }

    /// The message after testing the connection to port 9100: the test's output
    /// when it ran and succeeded, `None` otherwise.
    pub fn report_connection_test(&mut self, output: Option<String>)
        ensures
            final(self).pdf_path_input == old(self).pdf_path_input,
            message_view(final(self).status_message) == Some(
                match output {
                    Some(out) => if contains_run(trim_spec(out@), "True"@) {
                        ("✅ Connection to port 9100 successful"@, true)
                    } else {
                        ("❌ Connection to port 9100 failed"@, false)
                    },
                    None => ("❌ Cannot test connection"@, false),
                },
            ),
    {
        match output {
            Some(out) => {
                let trimmed = trim_text(out.as_str());
                let word = text("True");
                if contains_chars(&chars_of(trimmed.as_str()), &chars_of(word.as_str())) {
                    self.status_message = Some(
                        (text("✅ Connection to port 9100 successful"), true),
                    );
                } else {
                    self.status_message = Some((text("❌ Connection to port 9100 failed"), false));
                }
            },
            None => {
                self.status_message = Some((text("❌ Cannot test connection"), false));
            },
        }
    }

    /// The folder a folder picker chose, from what it printed: none when it
    /// printed only white space.
    pub fn picked_folder(output: &str) -> (folder: Option<String>)
        ensures
            match folder {
                Some(f) => trim_spec(output@).len() > 0 && f@ == trim_spec(output@),
                None => trim_spec(output@).len() == 0,
            },
    {
        let path = trim_text(output);
        if path.as_str().is_empty() {
            None
        } else {
            Some(path)
        }
    }
}

} // verus!
