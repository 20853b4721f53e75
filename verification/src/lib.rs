pub mod clock;
pub mod commands;
pub mod config_manager;
pub mod cookie_manager;
pub mod debug_logger;
pub mod decimal;
pub mod gytmdl_wrapper;
pub mod io_error;
pub mod pattern;
pub mod progress_parser;
pub mod queue_manager;
pub mod sidecar_isolation;
pub mod sidecar_manager;
pub mod state;
pub mod text;
pub mod worker;
