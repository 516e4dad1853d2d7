use data_viewer::endpoint::{EdgeEndpoint, Endpoint, GeneralEndpoint};
use data_viewer::fetch::{FetchError, Fetcher, Method, Request};
use data_viewer::model::{Device, Project, RawData, Sensor, SensorType, SensorWithData};
use data_viewer::sensor_data::{
    device_sensor_data, display_text, image_arrived, image_data_uri, join_sensor_data,
    join_tokens, read_snapshot_id, readings_arrived, sensor_display, snapshot_image,
    snapshot_request, SensorData, SensorDisplay, SnapshotImage, SNAPSHOT_ID_OFFSET,
};

fn sensor(id: &str, kind: SensorType) -> Sensor {
    Sensor { id: id.to_string(), name: format!("name of {id}"), kind, ..Sensor::default() }
}

fn raw(id: &str, value: &[&str]) -> RawData {
    RawData {
        id: id.to_string(),
        device_id: "d1".to_string(),
        value: value.iter().map(|v| v.to_string()).collect(),
        time: None,
    }
}

#[test]
fn join_matches_reading_to_sensor() {
    let device = Device {
        id: "d1".to_string(),
        sensors: Some(vec![sensor("s1", SensorType::Gauge)]),
        ..Device::default()
    };
    let items = device_sensor_data(&device, &vec![raw("s1", &["42"])]);
    assert_eq!(
        items,
        vec![SensorWithData {
            sensor: sensor("s1", SensorType::Gauge),
            data: Some(raw("s1", &["42"]))
        }]
    );
    assert_eq!(items[0].data.as_ref().unwrap().value, vec!["42".to_string()]);
}

#[test]
fn join_keeps_every_sensor_in_order() {
    let sensors = vec![
        sensor("s3", SensorType::Text),
        sensor("s1", SensorType::Gauge),
        sensor("s2", SensorType::Switch),
    ];
    let readings = vec![raw("s2", &["on"]), raw("zz", &["?"]), raw("s3", &["a", "b"])];
    let items = join_sensor_data(&sensors, &readings);
    assert_eq!(items.len(), sensors.len());
    for i in 0..items.len() {
        assert_eq!(items[i].sensor, sensors[i]);
    }
    assert_eq!(items[0].data, Some(raw("s3", &["a", "b"])));
    assert_eq!(items[1].data, None);
    assert_eq!(items[2].data, Some(raw("s2", &["on"])));
}

#[test]
fn join_takes_the_last_reading_of_an_id() {
    let sensors = vec![sensor("s1", SensorType::Gauge), sensor("s1", SensorType::Gauge)];
    let readings = vec![raw("s1", &["1"]), raw("s1", &["2"]), raw("s0", &["3"])];
    let items = join_sensor_data(&sensors, &readings);
    assert_eq!(items[0].data, Some(raw("s1", &["2"])));
    assert_eq!(items[1].data, Some(raw("s1", &["2"])));
}

#[test]
fn join_of_nothing() {
    assert_eq!(join_sensor_data(&vec![], &vec![raw("s1", &["1"])]), vec![]);
    let lonely = join_sensor_data(&vec![sensor("s1", SensorType::Gauge)], &vec![]);
    assert_eq!(lonely.len(), 1);
    assert_eq!(lonely[0].data, None);
    let bare = Device { id: "d".to_string(), sensors: None, ..Device::default() };
    assert_eq!(device_sensor_data(&bare, &vec![raw("s1", &["1"])]), vec![]);
}

#[test]
fn tokens_are_joined_with_single_spaces() {
    assert_eq!(join_tokens(&vec![]), "");
    assert_eq!(join_tokens(&vec!["42".to_string()]), "42");
    assert_eq!(join_tokens(&vec!["a".to_string(), "b".to_string(), "c".to_string()]), "a b c");
    assert_eq!(join_tokens(&vec![String::new(), String::new()]), " ");
}

#[test]
fn display_text_of_item() {
    let with = SensorWithData { sensor: sensor("s", SensorType::Text), data: Some(raw("s", &["x", "y"])) };
    assert_eq!(display_text(&with), "x y");
    let without = SensorWithData { sensor: sensor("s", SensorType::Text), data: None };
    assert_eq!(display_text(&without), "");
}

#[test]
fn snapshot_id_starts_after_the_offset() {
    assert_eq!(SNAPSHOT_ID_OFFSET, 11);
    assert_eq!(read_snapshot_id(SensorType::Snapshot, "snapshot://abc"), Some("abc".to_string()));
    assert_eq!(read_snapshot_id(SensorType::Snapshot, "0123456789AB"), Some("B".to_string()));
    assert_eq!(read_snapshot_id(SensorType::Snapshot, "0123456789A"), None);
    assert_eq!(read_snapshot_id(SensorType::Snapshot, ""), None);
    assert_eq!(read_snapshot_id(SensorType::Gauge, "snapshot://abc"), None);
    assert_eq!(read_snapshot_id(SensorType::Text, "snapshot://abc"), None);
    assert_eq!(read_snapshot_id(SensorType::Switch, "snapshot://abc"), None);
}

#[test]
fn snapshot_id_counts_characters() {
    assert_eq!(
        read_snapshot_id(SensorType::Snapshot, "ééééééééééé→id"),
        Some("→id".to_string())
    );
    assert_eq!(read_snapshot_id(SensorType::Snapshot, "ééééééééééé"), None);
}

#[test]
fn snapshot_request_depends_on_variant() {
    let project = Project { project_key: "PK".to_string(), endpoint_key: "e".to_string() };
    let device = Device { id: "d1".to_string(), ..Device::default() };
    let item = SensorWithData {
        sensor: sensor("cam", SensorType::Snapshot),
        data: Some(raw("cam", &["snapshot://img42"])),
    };
    let general = Endpoint::General(GeneralEndpoint { base_url: "https://x/api".to_string() });
    assert_eq!(
        snapshot_request(&general, &project, &device, &item),
        Some(Request {
            method: Method::Get,
            url: "https://x/api/device/d1/sensor/cam/snapshot/img42".to_string(),
            project_key: "PK".to_string()
        })
    );
    let edge = Endpoint::Edge(EdgeEndpoint { base_url: "https://x/api".to_string() });
    assert_eq!(
        snapshot_request(&edge, &project, &device, &item).unwrap().url,
        "https://x/api/snapshot/device/d1/sensor/cam/snapshot/img42"
    );
}

#[test]
fn no_snapshot_request_without_an_id() {
    let project = Project::default();
    let device = Device::default();
    let endpoint = Endpoint::General(GeneralEndpoint::default());
    let gauge = SensorWithData {
        sensor: sensor("g", SensorType::Gauge),
        data: Some(raw("g", &["snapshot://img42"])),
    };
    assert_eq!(snapshot_request(&endpoint, &project, &device, &gauge), None);
    let short = SensorWithData {
        sensor: sensor("cam", SensorType::Snapshot),
        data: Some(raw("cam", &["short"])),
    };
    assert_eq!(snapshot_request(&endpoint, &project, &device, &short), None);
    let unread = SensorWithData { sensor: sensor("cam", SensorType::Snapshot), data: None };
    assert_eq!(snapshot_request(&endpoint, &project, &device, &unread), None);
    let spaced = SensorWithData {
        sensor: sensor("cam", SensorType::Snapshot),
        data: Some(raw("cam", &["snapshot:", "a", "b"])),
    };
    assert_eq!(
        snapshot_request(&endpoint, &project, &device, &spaced).unwrap().url,
        "/device//sensor/cam/snapshot/ b"
    );
}

#[test]
fn image_is_encoded_as_base64_data_uri() {
    assert_eq!(
        snapshot_image(b"hello world~"),
        Some("data:image/jpeg;base64,aGVsbG8gd29ybGR+".to_string())
    );
    assert_eq!(
        snapshot_image(&[0xff, 0xd8, 0xff, 0xe0, 0x00]),
        Some("data:image/jpeg;base64,/9j/4AA=".to_string())
    );
    assert_eq!(snapshot_image(&[]), Some("data:image/jpeg;base64,".to_string()));
    assert_eq!(image_data_uri("QUJD"), "data:image/jpeg;base64,QUJD");
}

#[test]
fn card_shows_image_only_after_success() {
    assert_eq!(
        sensor_display("v".to_string(), Some(&Ok("data:x".to_string()))),
        SensorDisplay::Image("data:x".to_string())
    );
    assert_eq!(sensor_display("v".to_string(), None), SensorDisplay::Text("v".to_string()));
    assert_eq!(
        sensor_display("v".to_string(), Some(&Err(FetchError::Network("down".to_string())))),
        SensorDisplay::Text("v".to_string())
    );
}

#[test]
fn arrived_readings_are_joined_unless_superseded() {
    let device = Device {
        id: "d1".to_string(),
        sensors: Some(vec![sensor("s1", SensorType::Gauge), sensor("s2", SensorType::Text)]),
        ..Device::default()
    };
    let mut view: SensorData = Fetcher::new();
    let stale = view.reset().unwrap();
    let fresh = view.reset().unwrap();
    assert!(!readings_arrived(&mut view, stale, &device, Ok(vec![raw("s1", &["old"])])));
    assert!(view.is_loading());
    assert!(readings_arrived(&mut view, fresh, &device, Ok(vec![raw("s2", &["new"])])));
    let shown = view.value().unwrap().as_ref().unwrap();
    assert_eq!(shown.len(), 2);
    assert_eq!(shown[0].data, None);
    assert_eq!(shown[1].data, Some(raw("s2", &["new"])));
    let again = view.restart().unwrap();
    assert!(readings_arrived(&mut view, again, &device, Err(FetchError::Decode("bad".to_string()))));
    assert_eq!(view.value(), Some(&Err(FetchError::Decode("bad".to_string()))));
}

#[test]
fn arrived_image_is_shown_unless_superseded() {
    let mut view: SnapshotImage = Fetcher::new();
    let stale = view.reset().unwrap();
    let fresh = view.reset().unwrap();
    assert!(!image_arrived(&mut view, stale, Ok(b"old".to_vec())));
    assert_eq!(sensor_display("v".to_string(), view.value()), SensorDisplay::Text("v".to_string()));
    assert!(image_arrived(&mut view, fresh, Ok(b"hello world~".to_vec())));
    assert_eq!(
        sensor_display("v".to_string(), view.value()),
        SensorDisplay::Image("data:image/jpeg;base64,aGVsbG8gd29ybGR+".to_string())
    );
    let again = view.restart().unwrap();
    assert!(image_arrived(&mut view, again, Err(FetchError::Network("down".to_string()))));
    assert_eq!(sensor_display("v".to_string(), view.value()), SensorDisplay::Text("v".to_string()));
}
