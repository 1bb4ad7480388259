//! Verified core of a terminal-style resume site: the resume's data model, the
//! text of each section, the Markdown export and its file name, and the state
//! machine that keyboard and mouse input drive.
pub mod filename;
pub mod input;
pub mod markdown;
pub mod resume;
pub mod sections;
pub mod state;
pub mod text;
