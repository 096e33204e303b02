//! Decision logic of the PikaOS graphical installer: partition checks,
//! mount tables, crypttab entries and the generated installation script.
pub mod auto_partition;
pub mod fstab;
pub mod install_plan;
pub mod mount_check;
pub mod partitioning_checks;
pub mod model;
pub mod mount_rows;
pub mod probe;
pub mod progress;
pub mod script;
pub mod selection;
pub mod sorting;
pub mod summary;
pub mod templates;
pub mod text;
