pub mod build_hooks;
pub mod config;
pub mod cow_props;
pub mod cpu_spoof;
pub mod field_laws;
pub mod frame;
pub mod hook_laws;
pub mod hooks;
pub mod keyed_map;
pub mod property_laws;
pub mod property_map;
pub mod specialize;
pub mod state;
pub mod strings;
