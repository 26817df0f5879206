# escpos_emulator

A virtual ESC/POS receipt printer.

- `src/` is the verified library (Verus):
  - `escpos/commands.rs`: the printer commands;
  - `escpos/printer.rs`: the printer state machine, with its mathematical model
    (`PrinterModel`, `PrinterModel::after`) and the laws it keeps;
  - `escpos/raster.rs`: 1-bit bitmaps rendered as RGB samples;
  - `emulator/`: the emulator (bounded command history, per-device printers in
    PDF mode, the log of saved receipts);
  - `config.rs`, `export/pdf_text.rs`, `gui/*`, `text.rs`: configuration values,
    the font choice for PDF text, and the text shown by the command log, the save
    log and the settings panel.
- `app/` holds the program around it: configuration file, PDF writing and the
  saving of completed receipts.
- `tests/` exercises the library on concrete receipts.
