//! Preview values shared by the active and pinned preview surfaces, and the controller's
//! single pinned-preview snapshot lifecycle.

pub mod controller;
pub mod display_text;
pub mod infile;
pub mod paths;
pub mod presenter;
pub mod preview;
pub mod search;
pub mod view_policy;
