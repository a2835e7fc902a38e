//! What the user has chosen to see, and the screen on which it is chosen.

pub mod state;
pub mod ui;
