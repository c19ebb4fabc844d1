pub mod datefmt;
pub mod job;
pub mod paths;
pub mod report;
pub mod resolve;
pub mod runner;
pub mod ui;
