pub mod cache;
pub mod cli;
pub mod error;
pub mod fanout;
pub mod listing;
pub mod model;
pub mod oracle;
pub mod remote;
pub mod report;
pub mod text;
pub mod time;
pub mod tracker;
pub mod utils;
