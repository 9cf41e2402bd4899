use vstd::prelude::*;

verus! {

/// The identity of one plugin instance as the host holds it.
#[derive(Clone, Copy, PartialEq, Eq, Structural, Debug)]
pub struct PluginIds {
    pub plugin_id: u32,
    pub zellij_pid: u32,
}

/// The same record in the signed wire form that crosses the plugin
/// boundary.
#[derive(Clone, Copy, PartialEq, Eq, Structural, Debug)]
pub struct ProtobufPluginIds {
    pub plugin_id: i32,
    pub zellij_pid: i32,
}

/// The host's version string in its wire form.
pub struct ProtobufZellijVersion {
    pub version: String,
}

impl PluginIds {
    /// Decodes a wire record; each field reinterprets the same 32 bits as
    /// unsigned. Always succeeds.
    pub fn try_from(protobuf_plugin_ids: ProtobufPluginIds) -> (r: Result<Self, &'static str>)
        ensures
            r == Ok::<PluginIds, &'static str>(
                PluginIds {
                    plugin_id: protobuf_plugin_ids.plugin_id as u32,
                    zellij_pid: protobuf_plugin_ids.zellij_pid as u32,
                },
            ),
    {
        Ok(
            PluginIds {
                plugin_id: #[verifier::truncate] (protobuf_plugin_ids.plugin_id as u32),
                zellij_pid: #[verifier::truncate] (protobuf_plugin_ids.zellij_pid as u32),
            },
        )
    }
}

impl ProtobufPluginIds {
    /// Encodes a host record; each field reinterprets the same 32 bits as
    /// signed. Always succeeds.
    pub fn try_from(plugin_ids: PluginIds) -> (r: Result<Self, &'static str>)
        ensures
            r == Ok::<ProtobufPluginIds, &'static str>(
                ProtobufPluginIds {
                    plugin_id: plugin_ids.plugin_id as i32,
                    zellij_pid: plugin_ids.zellij_pid as i32,
                },
            ),
    {
        Ok(
            ProtobufPluginIds {
                plugin_id: #[verifier::truncate] (plugin_ids.plugin_id as i32),
                zellij_pid: #[verifier::truncate] (plugin_ids.zellij_pid as i32),
            },
        )
    }
}

impl ProtobufZellijVersion {
    /// Wraps a version string for the wire. Always succeeds.
    pub fn try_from(zellij_version: &str) -> (r: Result<Self, &'static str>)
        ensures
            r.is_ok(),
            r matches Ok(v) ==> v.version@ == zellij_version@,
    {
        Ok(ProtobufZellijVersion { version: zellij_version.to_owned() })
    }
}

} // verus!
