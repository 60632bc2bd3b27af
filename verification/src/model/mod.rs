//! The rows the server reads from its database and the answers it builds.
pub mod file_resp;
pub mod project_resp;
pub mod records;
