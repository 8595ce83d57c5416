//! Small pure helpers of a workspace command-line tool: MIME guessing,
//! `.env` parsing and the choice of home and configuration directories.
pub mod dotenv;
pub mod mime;
pub mod mime_table;
pub mod platform;
pub mod text;
