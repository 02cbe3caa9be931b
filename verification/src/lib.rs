//! Session persistence and pane lifecycle for an image viewer item.
//!
//! An open image is one item of a workspace. The library keeps the table that
//! records which image each item showed, garbage-collects rows of items that
//! are gone, and decides how an item reacts to its host: restoring from a
//! stored path, saving, splitting, and answering change events of the shared
//! image record with tab refreshes.

pub mod events;
pub mod ids;
pub mod image_view;
pub mod laws;
pub mod lifecycle;
pub mod paths;
pub mod persistence;
pub mod statement;
pub mod table;
