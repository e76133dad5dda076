pub mod check_results;
pub mod services;
pub mod systems;
