//! Building blocks for output plugins of a log-processing host that loads
//! them through its proxy protocol.
//!
//! A plugin implements [`FLBPluginMethods`]. The host drives it through five
//! steps, each of which is a function of [`bridge`] that takes plain values
//! and returns the integer code the host expects. Text crosses the boundary
//! as null-terminated strings, which [`host_string`] encodes and decodes.
//! During init a plugin reads its configuration through [`FLBPlugin`].

pub mod bridge;
pub mod descriptor;
pub mod host_string;
pub mod outcome;
pub mod plugin;

pub use crate::bridge::{
    flb_plugin_exit, flb_plugin_flush, flb_plugin_init, flb_plugin_register,
    flb_plugin_unregister, flush_tag, store_identity,
};
pub use crate::descriptor::{
    flb_output_instance, flb_plugin_proxy_def, FLBPluginProxyDef, PluginInfo, FLB_PROXY_GOLANG,
    FLB_PROXY_OUTPUT_PLUGIN,
};
pub use crate::host_string::{
    borrow_host_str, find_terminator, from_host_string, to_host_string, StringError,
};
pub use crate::outcome::{outcome_code, FLBError, FLBResult, FLB_ERROR, FLB_OK, FLB_RETRY};
pub use crate::plugin::{property_value, ConfigError, FLBPlugin, FLBPluginMethods};
