//! Verified core of a local-first vocabulary coach: storage rules, translation
//! provider protocols and platform adapter decisions.

pub mod windows_platform;
pub mod platform;
pub mod text;
pub mod macos;
pub mod windows_selection;
pub mod windows_discovery;
pub mod windows_ocr;
pub mod translation;
pub mod azure;
pub mod deepl;
pub mod domain;
pub mod storage;
