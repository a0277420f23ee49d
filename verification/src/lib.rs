//! Veritas: the decisions of a tool that tests software against itself.
//!
//! The library reads no file and runs no command. It is handed what was read and what
//! commands printed, and says what follows: which targets a project has, which tests to
//! write, which changes of a source to try, what a report holds, how much confidence it
//! gives, and what to do next.
//!
//! - `api`, `metrics`, `records` and `config` hold the records; `documents` writes and reads
//!   them as JSON, and `readback` proves that what is written is read back.
//! - `engine` puts reports together from the work of plugins; `planner`, `schedule`, `cache`
//!   and `changes` say what to work on.
//! - `findings`, `regressions`, `evolution`, `evolve`, `campaign`, `replay`, `signatures` and
//!   `corpus` make artifacts of findings and compare what changed.
//! - `quality`, `attribution`, `score` and `modes` measure a report.
//! - The `go_` modules are the plugin for Go.
//! - `bench`, `conformance`, `policy`, `next`, `prompts`, `review`, `mutants`, `setup` and
//!   `summaries` are the commands.
//! - `text`, `split`, `number`, `order`, `paths`, `offsets`, `json`, `fields`, `ranking`,
//!   `pathmap`, `counts`, `seqs` and `output` are what the rest is built on.
pub mod api;
pub mod api_drift;
pub mod attribution;
pub mod bench;
pub mod cache;
pub mod campaign;
pub mod changes;
pub mod config;
pub mod conformance;
pub mod corpus;
pub mod counts;
pub mod documents;
pub mod engine;
pub mod evolution;
pub mod evolve;
pub mod fields;
pub mod findings;
pub mod generated;
pub mod go_fuzz;
pub mod go_mutation;
pub mod go_operators;
pub mod go_packages;
pub mod go_plugin;
pub mod go_promote;
pub mod go_records;
pub mod go_run;
pub mod go_source;
pub mod hunks;
pub mod ids;
pub mod json;
pub mod metrics;
pub mod modes;
pub mod mutants;
pub mod next;
pub mod number;
pub mod offsets;
pub mod order;
pub mod output;
pub mod pathmap;
pub mod paths;
pub mod planner;
pub mod policy;
pub mod prompts;
pub mod quality;
pub mod ranking;
pub mod readback;
pub mod records;
pub mod regressions;
pub mod replay;
pub mod review;
pub mod schedule;
pub mod score;
pub mod seqs;
pub mod setup;
pub mod signatures;
pub mod split;
pub mod summaries;
pub mod text;
