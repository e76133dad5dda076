pub mod check_result;
pub mod service;
pub mod system;
