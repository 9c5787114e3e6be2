use libdrm::connector::{connector_type_name, Connection, Connector, ConnectorRecord};
use libdrm::mode_info::ModeInfo;
use libdrm::registry::Registry;

fn mode(clock: u32, w: u16, h: u16) -> ModeInfo {
    ModeInfo::new(clock, w, 0, 0, 0, 0, h, 0, 0, 0, 0, 60, 0, 0)
}

fn record_with(connection: u32, connector_type: u32) -> ConnectorRecord {
    ConnectorRecord {
        connector_id: 33,
        encoder_id: 5,
        connector_type,
        connector_type_id: 2,
        connection,
        mm_width: 520,
        mm_height: 290,
        modes: vec![mode(148500, 1920, 1080), mode(74250, 1280, 720)],
        encoders: vec![5, 6, 7],
    }
}

#[test]
fn connector_getters_return_record_fields() {
    let mut reg = Registry::new();
    let c = Connector::new(record_with(1, 11), &mut reg);
    assert_eq!(c.get_connector_id(), 33);
    assert_eq!(c.get_encoder_id(), 5);
    assert_eq!(c.get_connector_type(), 11);
    assert_eq!(c.get_connector_type_id(), 2);
    assert_eq!(c.get_mm_width(), 520);
    assert_eq!(c.get_mm_height(), 290);
    assert_eq!(c.get_count_modes(), 2);
    assert_eq!(c.get_count_encoders(), 3);
    assert_eq!(c.get_encoders(), vec![5, 6, 7]);
    assert_eq!(c.get_type_name(), "HDMIA");
}

#[test]
fn connection_state_maps_raw_codes() {
    let mut reg = Registry::new();
    let connected = Connector::new(record_with(1, 11), &mut reg);
    let disconnected = Connector::new(record_with(2, 11), &mut reg);
    let unknown = Connector::new(record_with(3, 11), &mut reg);
    let garbage = Connector::new(record_with(77, 11), &mut reg);
    assert_eq!(connected.get_connection(), Connection::Connected);
    assert_eq!(disconnected.get_connection(), Connection::Disconnected);
    assert_eq!(unknown.get_connection(), Connection::Unknown);
    assert_eq!(garbage.get_connection(), Connection::Unknown);
}

#[test]
fn get_modes_is_idempotent_and_outlives_the_connector() {
    let mut reg = Registry::new();
    let c = Connector::new(record_with(1, 11), &mut reg);
    let first = c.get_modes();
    let second = c.get_modes();
    assert_eq!(first, second);
    c.destroy(&mut reg);
    // The copies stay valid and unchanged after the wrapper is gone.
    assert_eq!(first.len(), 2);
    assert_eq!(first[0].get_clock(), 148500);
    assert_eq!(first[0].get_hdisplay(), 1920);
    assert_eq!(first[1].get_vdisplay(), 720);
    assert_eq!(first, second);
}

#[test]
fn type_name_table_is_total() {
    assert_eq!(connector_type_name(0), "Unknown");
    assert_eq!(connector_type_name(1), "VGA");
    assert_eq!(connector_type_name(7), "LVDS");
    assert_eq!(connector_type_name(10), "DisplayPort");
    // Boundary: the last named entry, then the fallback from there on.
    assert_eq!(connector_type_name(14), "eDP");
    assert_eq!(connector_type_name(15), "Unknown");
    assert_eq!(connector_type_name(16), "Unknown");
    assert_eq!(connector_type_name(1000), "Unknown");
    assert_eq!(connector_type_name(u32::MAX), "Unknown");
}

#[test]
fn type_name_on_a_wrapper_follows_its_code() {
    let mut reg = Registry::new();
    let out_of_table = Connector::new(record_with(1, 15), &mut reg);
    assert_eq!(out_of_table.get_type_name(), "Unknown");
    let edp = Connector::new(record_with(1, 14), &mut reg);
    assert_eq!(edp.get_type_name(), "eDP");
}
