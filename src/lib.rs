//! Backend logic of a dictation tool: the clipboard paste sequence, and the
//! decisions taken on the replies of a hosted speech-to-text service.

pub mod paste;
pub mod status;
pub mod json;
pub mod service;
