//! A small web spider: a supervisor hands out target URIs to a pool of
//! crawlers, collects what they scrape, and reports when the crawl is done.
//! This crate holds the decisions and the data handling; the actors, the
//! network and the database live around it.

pub mod common;
pub mod crawl;
pub mod db;
pub mod error;
pub mod scrape;
pub mod spider;
pub mod spider_sup;
pub mod supervision;
pub mod text;
pub mod web;
