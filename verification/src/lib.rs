//! Request handling rules of a small file-storage web service: header
//! validation, path sanitation and confinement, and the decisions taken by
//! each endpoint between its filesystem operations.

pub mod delete;
pub mod download;
pub mod file_db;
pub mod laws;
pub mod path;
pub mod refresh;
pub mod reply;
pub mod request;
pub mod resolve;
pub mod text;
pub mod upload;

pub use download::download_file_handler;
pub use delete::delete_file_handler;
pub use file_db::get_file_db_handler;
pub use reply::{root_handler, FileStat, IoErrorKind, IoFailure, Reply, Status};
pub use request::{AppState, Config, FileMetadata, FilePath, MetadataHeaders};
pub use upload::upload_file_handler;
