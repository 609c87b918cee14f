//! Verified core of the Glance screenshot translator: language-code mapping,
//! translation-service reply handling, capture geometry, pixel work and
//! history ordering.
pub mod text;
pub mod error;
pub mod int_parse;
pub mod capture;
pub mod history;
pub mod models;
pub mod bing_translate;
pub mod youdao_text_translate;
pub mod capture_window;
pub mod image_codec;
pub mod commands;
pub mod capture_workflow;
pub mod macos_permissions;
