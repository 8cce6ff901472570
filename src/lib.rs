//! A small web demonstration: an index page, a colored block for any color
//! name, and one process-wide favorite color that visitors can set and read.
//!
//! The library holds the decisions of each route (which template is rendered,
//! with which context) and the favorite-color cell; the HTTP server around it
//! lives in the application.
pub mod favorite;
pub mod page;
pub mod render;
