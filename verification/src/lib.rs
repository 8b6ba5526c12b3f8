//! komadome: the logic of a static site generator for Aozora Bunko.
//!
//! The library assembles the records that the site's pages are made from
//! (book cards, person pages, indexes, news, new works), paginates them,
//! checks the exported data files and reports on them, builds the CSV lists
//! and their zip archives, and decides what the command-line program does.
//! Every function states its behaviour as a contract that Verus proves; the
//! calls into the `regex`, `encoding_rs`, `csv`, `zip`, `chrono` and `serde_json` crates
//! stand behind trusted wrappers whose contracts say what is assumed.

pub mod text;
pub mod kana;
pub mod export_helpers;
pub mod db_helpers;
pub mod models;
pub mod regex_text;
pub mod cards;
pub mod whatsnew;
pub mod json;
pub mod report;
pub mod records;
pub mod report_html;
pub mod zip_csv;
pub mod config;
pub mod build_stats;
pub mod cli;
pub mod card_pages;
pub mod top;
pub mod person_pages;
pub mod person_indexes;
pub mod work_indexes;
pub mod list_inp;
pub mod site_pages;
pub mod clock;
