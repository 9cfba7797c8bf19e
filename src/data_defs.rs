//! The commands sent to the printer and the status it reports, as plain values.

pub mod printer_job_action;
pub mod printer_job_state;
pub mod printer_move;
pub mod printer_state;
pub mod printer_tool;
