pub mod errors;
pub mod git;
pub mod github;
pub mod monitor;
pub mod release_iso;
pub mod reporter;
pub mod text;
pub mod tui;
pub mod version;
