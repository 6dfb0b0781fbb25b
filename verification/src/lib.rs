//! The decisions behind a small PHP and Laravel editor: everything the editor
//! works out from plain values before a pixel is drawn or a file is touched.

pub mod chrome;
pub mod commands;
pub mod completing;
pub mod completion;
pub mod database;
pub mod disk;
pub mod docker;
pub mod edits;
pub mod effects;
pub mod facts;
pub mod file_actions;
pub mod git;
pub mod history;
pub mod jobs;
pub mod json;
pub mod kinds;
pub mod logs;
pub mod lsp;
pub mod navigation;
pub mod opening;
pub mod palette;
pub mod panels;
pub mod paths;
pub mod routes;
pub mod search;
pub mod tabs;
pub mod test_view;
pub mod text;
pub mod theme;
pub mod themes;
pub mod tooltip;
pub mod tree;
pub mod update;
pub mod workspace_view;
