//! Reduces what a CDS continuous-delivery service reports about an account
//! (announcements, system health, queue depth, and the latest run of each
//! bookmarked workflow) to a colour-coded headline and the lines of a menu
//! below it.
//!
//! [`tier`] classifies raw status tokens into severity tiers. [`fetch`]
//! selects the bookmarks that have runs and fetches them in order;
//! [`assemble`] puts results that were fetched side by side back into that
//! order. [`standard`] and [`admin`] are the two policies, [`render`] chooses
//! between them, and [`bitbar`] hands the result to the status-bar plugin.

pub mod admin;
pub mod assemble;
pub mod bitbar;
pub mod bookmarks;
pub mod config;
pub mod entry;
pub mod fetch;
pub mod menu;
pub mod model;
pub mod render;
pub mod standard;
pub mod text;
pub mod tier;
