pub mod attach;
pub mod branch;
pub mod control;
pub mod frame;
pub mod settings;
pub mod slot;
pub mod supervisor;
pub mod teardown;
pub mod text;
