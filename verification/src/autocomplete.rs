pub mod context;
pub mod jq_functions;
pub mod json_analyzer;
pub mod state;
