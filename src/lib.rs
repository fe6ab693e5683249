pub mod aggregate;
pub mod auth_service;
pub mod budget_repository;
pub mod budget_service;
pub mod date_time;
pub mod expense_repository;
pub mod expense_service;
pub mod http_error;
pub mod http;
pub mod ids;
pub mod laws;
pub mod models;
pub mod pagination;
pub mod project_repository;
pub mod project_service;
pub mod table;
pub mod text;
pub mod user_repository;
