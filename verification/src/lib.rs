//! Engine-independent logic of two small interactive programs, with
//! machine-checked contracts: a toggle button that previews a darker colour
//! under the pointer, and a loop that greets every connected peer every five
//! seconds and logs what the peers send.

pub mod broadcast;
pub mod button;
pub mod color;
pub mod peer;
pub mod receive;
pub mod timer;
