//! Build-automation logic for GitHub Actions workflows.
pub mod commands;
pub mod download;
pub mod encoding;
pub mod git;
pub mod http;
pub mod i18n;
pub mod json;
pub mod pairs;
pub mod records;
pub mod template;
pub mod text;
pub mod workflow;
