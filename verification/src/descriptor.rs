//! The records that the host and a plugin exchange when the plugin is loaded.

use vstd::prelude::*;

verus! {

/// Kind of an output plugin, as the host's protocol numbers it.
pub const FLB_PROXY_OUTPUT_PLUGIN: u32 = 2;

/// Kind of proxy through which the host loads plugins of this protocol.
pub const FLB_PROXY_GOLANG: u32 = 11;

/// The host's descriptor of a plugin.
///
/// The two strings are held as the null-terminated buffers that the host
/// owns once they are stored; a field that was never stored is `None`.
#[allow(non_camel_case_types)]
#[derive(Debug, Clone)]
pub struct flb_plugin_proxy_def {
    /// Kind of plugin.
    pub type_: i32,
    /// Kind of proxy.
    pub proxy: i32,
    /// Flags of the plugin; none is defined.
    pub flags: i32,
    /// The plugin's name, as a host string.
    pub name: Option<Vec<u8>>,
    /// The plugin's description, as a host string.
    pub description: Option<Vec<u8>>,
}

/// The host's descriptor of a plugin, under the name the protocol's
/// documentation uses.
pub type FLBPluginProxyDef = flb_plugin_proxy_def;

/// An output instance inside the host. Nothing of it is known to a plugin,
/// which only ever passes it back to the host.
#[allow(non_camel_case_types)]
#[derive(Debug, Copy, Clone)]
pub struct flb_output_instance {
    _address: u8,
}

/// Basic plugin information
pub struct PluginInfo {
    /// Plugin's name
    pub name: String,
    /// Plugin's description
    pub description: String,
}

impl Default for PluginInfo {
    /// Information with an empty name and an empty description.
    fn default() -> (info: PluginInfo)
        ensures
            info.name@ == Seq::<char>::empty(),
            info.description@ == Seq::<char>::empty(),
    {
        PluginInfo { name: String::new(), description: String::new() }
    }
}

impl flb_plugin_proxy_def {
    /// True when the three numeric fields hold what the protocol fixes for
    /// an output plugin.
    pub open spec fn has_protocol_constants(&self) -> bool {
        &&& self.type_ == FLB_PROXY_OUTPUT_PLUGIN
        &&& self.proxy == FLB_PROXY_GOLANG
        &&& self.flags == 0
    }

    /// The stored name as a sequence of bytes, if one is stored.
    pub open spec fn name_bytes(&self) -> Option<Seq<u8>> {
        match self.name {
            Some(buf) => Some(buf@),
            None => None,
        }
    }

    /// The stored description as a sequence of bytes, if one is stored.
    pub open spec fn description_bytes(&self) -> Option<Seq<u8>> {
        match self.description {
            Some(buf) => Some(buf@),
            None => None,
        }
    }

    /// Writes the kind of plugin, the kind of proxy and the flags that the
    /// protocol fixes, and leaves the two strings as they are.
    pub fn write_protocol_constants(&mut self)
        ensures
            final(self).has_protocol_constants(),
            final(self).name == old(self).name,
            final(self).description == old(self).description,
    {
        self.type_ = 2;
        self.proxy = 11;
        self.flags = 0;
    }
}

} // verus!
