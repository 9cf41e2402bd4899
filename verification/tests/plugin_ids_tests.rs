use boundaries::plugin_ids::PluginIds;
use boundaries::plugin_ids::ProtobufPluginIds;
use boundaries::plugin_ids::ProtobufZellijVersion;

#[test]
fn decode_wire_plugin_ids() {
    let wire = ProtobufPluginIds { plugin_id: 7, zellij_pid: 1234 };
    let ids = PluginIds::try_from(wire).unwrap();
    assert_eq!(ids.plugin_id, 7);
    assert_eq!(ids.zellij_pid, 1234);
}

#[test]
fn decode_negative_wire_id_reinterprets_bits() {
    let wire = ProtobufPluginIds { plugin_id: -1, zellij_pid: -2 };
    let ids = PluginIds::try_from(wire).unwrap();
    assert_eq!(ids.plugin_id, u32::MAX);
    assert_eq!(ids.zellij_pid, u32::MAX - 1);
}

#[test]
fn encode_round_trips_through_wire_form() {
    let ids = PluginIds { plugin_id: u32::MAX, zellij_pid: 42 };
    let wire = ProtobufPluginIds::try_from(ids).unwrap();
    assert_eq!(wire.plugin_id, -1);
    assert_eq!(wire.zellij_pid, 42);
    let back = PluginIds::try_from(wire).unwrap();
    assert_eq!(back, ids);
}

#[test]
fn version_string_carried_verbatim() {
    let wire = ProtobufZellijVersion::try_from("0.15.0").unwrap();
    assert_eq!(wire.version, "0.15.0");
}
