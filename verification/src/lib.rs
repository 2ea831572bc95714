//! The logic of a three-pane file navigator: ordered directory listings,
//! bounded file previews, the pane-rotation state machine, the screen layout
//! and the drawing plan of each pane.
//!
//! Nothing here touches a disk or a terminal. A caller reads directories,
//! files and keys, hands the library what it read, and draws what the library
//! tells it to draw.

pub mod error;
pub mod files;
pub mod order;
pub mod path;
pub mod pos;
pub mod state;
pub mod text;
pub mod ui;
