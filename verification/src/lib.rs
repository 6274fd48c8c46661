//! The native shell of the Vortex desktop application: its menu bar, as a
//! verified value, and the rule by which the main window is shown.

pub mod layout;
pub mod menu;
pub mod window;
