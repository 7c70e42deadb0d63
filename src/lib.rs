pub mod agent;
pub mod anthropic;
pub mod commands;
pub mod completions;
pub mod file_patch;
pub mod history;
pub mod json;
pub mod protocol;
pub mod providers;
pub mod search_files;
pub mod security;
pub mod session;
pub mod sse;
pub mod stream;
pub mod text;
pub mod tools;
pub mod types;
pub mod ui;
pub mod web_fetch;
