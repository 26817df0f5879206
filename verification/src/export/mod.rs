pub mod pdf_text;
