//! Control logic for a 3D printer driven through a remote device API: filament
//! load/unload sequencing, temperature convergence, a single-flight job slot,
//! a print-completion watcher and a retry supervisor.

pub mod data_defs;
pub mod decimal;
pub mod filament_sequence;
pub mod filaments;
pub mod http_errors;
pub mod job_checker;
pub mod job_report;
pub mod job_running;
pub mod notify;
pub mod printer_commands;
pub mod retry_on_fail;
pub mod time_utils;
