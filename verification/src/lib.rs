//! The core of the Secretary runtime: the records of its ledger, the store that keeps
//! them, the policy that decides before anything runs, the runs of tool jobs, the
//! settings of tool output, artifacts of large outputs, and the registry of extensions.
//!
//! Every type has a mathematical model, its deep view, and every contract speaks of
//! models. What the library promises over several calls stands in the modules whose
//! names end in `laws`, and as functions named `law_..` beside the types they are about.
//!
//! Nothing here reads or writes files: the host of a runtime renders tool results and
//! holds artifacts, and hands the library plain values.
pub mod acceptance_laws;
pub mod artifact_laws;
pub mod artifacts;
pub mod capabilities;
pub mod checks;
pub mod domain;
pub mod expiry;
pub mod extensions;
pub mod failure_laws;
pub mod feedback;
pub mod handling_laws;
pub mod ids;
pub mod inline_laws;
pub mod job_lifecycle;
pub mod job_run;
pub mod keeping_laws;
pub mod ledger_laws;
pub mod making_laws;
pub mod message_laws;
pub mod output_handling;
pub mod policy;
pub mod policy_laws;
pub mod precedence_laws;
pub mod query_laws;
pub mod record;
pub mod requests;
pub mod runtime;
pub mod runtime_laws;
pub mod settings;
pub mod settings_laws;
pub mod settings_service;
pub mod spillover;
pub mod store;
pub mod store_laws;
pub mod store_model;
pub mod table;
pub mod text;
pub mod text_laws;
pub mod text_map;
pub mod tool_output;
pub mod truncation;
