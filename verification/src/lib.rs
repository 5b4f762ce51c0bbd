//! A registry of résumés behind a captive portal.
//!
//! The library decides; whoever uses it talks to the network, the database, the
//! files and the firewall. Requests become statements for the database, and what
//! the database gives back becomes replies. Where outside work and decisions
//! alternate, a value of the library says what is to be done next and takes in
//! what came of it.
pub mod commands;
pub mod dashboard;
pub mod edits;
pub mod json;
pub mod news;
pub mod notes;
pub mod page;
pub mod picture;
pub mod portal;
pub mod records;
pub mod rows;
pub mod rules;
pub mod runs;
pub mod saves;
pub mod search;
pub mod seed;
pub mod status;
pub mod steps;
pub mod store;
pub mod text;
pub mod wording;
