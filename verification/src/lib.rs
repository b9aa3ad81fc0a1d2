//! The system processes of a Rholang runtime.
//!
//! A system process is a contract that the runtime itself provides: it prints,
//! hashes, tells of blocks, resolves URNs, calls on services, runs MeTTa programs.
//! Here it is a machine that decides and asks its host to act, one step at a time,
//! so that what it decides can be stated and proved for every answer of the host.
pub mod answer_laws;
pub mod contract_call;
pub mod crypto;
pub mod crypto_processes;
pub mod definitions;
pub mod errors;
pub mod exchange;
pub mod fixed_channels;
pub mod json;
pub mod model_laws;
pub mod output_laws;
pub mod par;
pub mod process_laws;
pub mod registry_laws;
pub mod registry_processes;
pub mod resume;
pub mod rho_type;
pub mod service_laws;
pub mod service_processes;
pub mod state;
pub mod swi_prolog_service;
pub mod system_processes;
pub mod test_processes;
pub mod test_utils;
pub mod text;
pub mod value_laws;
