//! Per-frame decision and text reconstruction for a screen-capture pipeline:
//! content fingerprints, the dimension guard of the structural comparison,
//! the change tracker that remembers the most-changed frame, and the
//! reconstruction of line records from a word-level OCR token stream.
pub mod decimal;
pub mod error;
pub mod frame;
pub mod ocr;
pub mod ocr_json;
pub mod text_files;
pub mod tracker;
