//! Helpers for continuous-integration pipelines: reading a package
//! manifest's version, deciding whether a release run is a dry run, and
//! building the commands and phase sequence of a publish run.
pub mod text;
pub mod manifest;
pub mod dry_run;
pub mod git;
pub mod publish;
pub mod pipeline;
