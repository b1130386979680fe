//! State, keyboard handling and screen composition of a source-control
//! sidebar.
//!
//! Nothing here talks to git, to a terminal or to a clock.  Operations on
//! [`runtime::App`] update the panel and hand back a
//! [`runtime::GitSidebarEffect`] for the embedding program to carry out, and
//! the functions of [`render`] describe what is to be drawn.

pub mod geometry;
pub mod git_sidebar;
pub mod keyboard;
pub mod keys;
pub mod laws;
pub mod laws_keys;
pub mod laws_list;
pub mod laws_runtime;
pub mod laws_screen;
pub mod laws_views;
pub mod path;
pub mod render;
pub mod runtime;
pub mod text;

