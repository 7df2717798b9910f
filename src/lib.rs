//! Interaction logic of a radial ("clickwheel") gesture menu and of an
//! animation transport controller.
//!
//! The menu is armed while a control is held. Arming lays out the menu's
//! segments and asks the host to spawn one pointer probe collider and one
//! collider per segment; disarming hands every collider back for destruction.
//! Collision events between the probe and the segments decide which segment is
//! hot. All values that the host measures in floating point (pointer positions,
//! viewport sizes, playback times and speeds) are carried as opaque generic
//! values: the host does the arithmetic on them, the library decides.
use vstd::prelude::*;

pub mod layout;
pub mod menu;
pub mod pointer;
pub mod proxy;
pub mod selection;
pub mod transport;

verus! {

} // verus!
