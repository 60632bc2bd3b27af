//! Project, file and compile-queue logic of the TeXHub collaborative LaTeX
//! editor server.
pub mod text;
pub mod file_name_validator;
pub mod model;
pub mod synctex_path;
pub mod compile_queue;
pub mod compile_log;
pub mod project;
pub mod file_spec;
