//! Verified core of a small Git front end: the models behind the file
//! change lists, the repository's staging decisions, the diff view and the
//! text filters, each stated over mathematical views.
#![allow(non_snake_case)]

pub mod columns;
pub mod text;
pub mod file_change;
pub mod status;
pub mod row_ops;
pub mod file_changes_store;
pub mod grouped_file_changes;
pub mod event;
pub mod repository;
pub mod ifile_changes_store;
pub mod changes_store_events;
pub mod staged_changes_store;
pub mod unstaged_changes_store;
pub mod repository_laws;
pub mod regex_support;
pub mod text_filter;
pub mod gui_actions;
pub mod line_diff;
pub mod diff_view;
pub mod number_casts;
pub mod line_count;
pub mod line_number;
pub mod std_utils;
pub mod gui_utils;
pub mod gui_element;
pub mod observers;
pub mod dispatch;
pub mod text_view;
pub mod tool_bar_stack;
pub mod file_changes_view;
pub mod settings_values;
pub mod decimal;
pub mod settings;
