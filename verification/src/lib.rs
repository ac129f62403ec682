pub mod book;
pub mod cli;
pub mod dashboard;
pub mod decimal;
pub mod portfolio;
pub mod prediction_model;
pub mod server_error;
