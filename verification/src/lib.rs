//! Planning for a project scaffolder: the command lines it runs, the schema
//! file it writes, the messages it prints, and the fail-fast pipeline that
//! orders them.

pub mod config;
pub mod text;
pub mod invocation;
pub mod message;
pub mod schema;
pub mod pipeline;
pub mod report;
pub mod run;
pub mod render;
