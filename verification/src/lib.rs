//! Control logic for an automated optical-media ripping machine: the
//! mechanical layout, the motion planning of its three stepper axes, the
//! decisions taken while a stepper runs, the bookkeeping tables and the
//! commands exchanged with the ripping container.
pub mod hardware_layout;
pub mod media;
pub mod byte_size;
pub mod command;
pub mod database;
pub mod drive_layout;
pub mod info;
pub mod machine;
pub mod ripper;
pub mod servo;
pub mod snapshot;
pub mod stepper;
pub mod text;
