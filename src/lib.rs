//! Native side of a desktop editor shell: the application menu, the script
//! that forwards a menu activation to the web front-end, and the rule that
//! turns a pasteboard reading into the change count handed to the front-end.

pub mod clipboard;
pub mod event;
pub mod menu;
