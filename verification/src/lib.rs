//! The core of a query engine for the wikis of the MediaWiki family.
//!
//! A query names page sources, combines their results by set operations,
//! and puts the outcome through a fixed run of stages that filter, convert
//! and annotate it. This library holds what is decided and computed on the
//! way: page lists and their set algebra, the statements that are put to
//! the databases and what is made of their rows, the notation of source
//! combinations and its evaluation, and the order of the stages. It asks
//! for work on databases and wikis; it does none itself.
//!
//! Every function has a contract over a mathematical model of its data, and
//! the contracts are proved. What the library has from other crates is
//! declared where it is used, with what is taken on trust of it.

pub mod annotate;
pub mod app_state;
pub mod batch;
pub mod chance;
pub mod collate;
pub mod combination;
pub mod combination_laws;
pub mod convert;
pub mod coordinates;
pub mod datasource;
pub mod db_params;
pub mod entry;
pub mod evaluate;
pub mod evaluate_laws;
pub mod file_info;
pub mod form_parameters;
pub mod numeral;
pub mod ordering;
pub mod output;
pub mod pagelist;
pub mod pipeline;
pub mod platform;
pub mod reader;
pub mod regexp;
pub mod rewrite;
pub mod row;
pub mod set_laws;
pub mod site_matrix;
pub mod sort;
pub mod sorting;
pub mod sql;
pub mod stage_files;
pub mod stage_items;
pub mod stage_labels;
pub mod stage_metadata;
pub mod stage_redlinks;
pub mod stage_sitelinks;
pub mod stage_wikidata;
pub mod stages;
pub mod text;
pub mod title;
pub mod tokens;
pub mod tool_db;
pub mod tristate;
