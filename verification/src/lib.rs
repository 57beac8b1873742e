//! A terminal dashboard for serial ports: the layout of its panes, their static
//! content, the quit keys and the lifecycle of a session, each with a proved contract.

pub mod geometry;
pub mod split;
mod solver;
pub mod layout;
pub mod input;
pub mod session;
pub mod content;
pub mod report;
