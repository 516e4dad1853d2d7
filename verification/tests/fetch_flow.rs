use data_viewer::directory::{create_endpoint, create_project, Directory, Endpoints, Projects};
use data_viewer::endpoint::{EdgeEndpoint, Endpoint, GeneralEndpoint};
use data_viewer::error::ErrorKind;
use data_viewer::fetch::{
    metadata_request, project_key_header, rawdata_request, resolve, save_device_request,
    save_sensor_request, FetchError, Fetcher, Method, Request,
};
use data_viewer::model::{Device, Project, Sensor};

fn project() -> Project {
    Project { project_key: "PK1".to_string(), endpoint_key: "e1".to_string() }
}

fn endpoint() -> Endpoint {
    Endpoint::General(GeneralEndpoint { base_url: "https://x/api".to_string() })
}

fn device(id: &str) -> Device {
    Device { id: id.to_string(), name: "n".to_string(), kind: "k".to_string(), ..Device::default() }
}

#[test]
fn requests_carry_url_and_project_key() {
    assert_eq!(project_key_header(), "CK");
    assert_eq!(
        metadata_request(&endpoint(), &project()),
        Request {
            method: Method::Get,
            url: "https://x/api/metadata".to_string(),
            project_key: "PK1".to_string()
        }
    );
    assert_eq!(
        rawdata_request(&endpoint(), &project(), &device("d1")),
        Request {
            method: Method::Get,
            url: "https://x/api/device/d1/rawdata".to_string(),
            project_key: "PK1".to_string()
        }
    );
    assert_eq!(
        save_device_request(&endpoint(), &project(), &device("d1")),
        Request {
            method: Method::Put,
            url: "https://x/api/device/d1".to_string(),
            project_key: "PK1".to_string()
        }
    );
    let sensor = Sensor { id: "s7".to_string(), ..Sensor::default() };
    let edge = Endpoint::Edge(EdgeEndpoint { base_url: "http://e".to_string() });
    assert_eq!(
        save_sensor_request(&edge, &project(), &device("d1"), &sensor),
        Request {
            method: Method::Put,
            url: "http://e/device/d1/sensor/s7".to_string(),
            project_key: "PK1".to_string()
        }
    );
}

#[test]
fn resolve_finds_project_and_endpoint() {
    let mut endpoints: Endpoints = Directory::new();
    create_endpoint(&mut endpoints, "e1".to_string(), "https://x/api".to_string());
    let mut projects: Projects = Directory::new();
    create_project(&mut projects, "p".to_string(), "PK1".to_string(), "e1".to_string());
    let resolved = resolve(&projects, &endpoints, "p").unwrap();
    assert_eq!(resolved.project, project());
    assert_eq!(resolved.endpoint, endpoint());
}

#[test]
fn resolve_reports_what_is_missing() {
    let mut endpoints: Endpoints = Directory::new();
    let mut projects: Projects = Directory::new();
    assert_eq!(resolve(&projects, &endpoints, "p"), Err(FetchError::NoProject));
    create_project(&mut projects, "p".to_string(), "PK1".to_string(), "gone".to_string());
    assert_eq!(resolve(&projects, &endpoints, "p"), Err(FetchError::NoEndpoint));
    create_endpoint(&mut endpoints, "e1".to_string(), "u".to_string());
    assert_eq!(resolve(&projects, &endpoints, "p"), Err(FetchError::NoEndpoint));
    assert_eq!(resolve(&projects, &endpoints, "q"), Err(FetchError::NoProject));
}

#[test]
fn errors_have_kind_and_message() {
    assert_eq!(FetchError::NoProject.kind(), ErrorKind::NotFoundLocally);
    assert_eq!(FetchError::NoProject.message(), "No project id");
    assert_eq!(FetchError::NoEndpoint.kind(), ErrorKind::NotFoundLocally);
    assert_eq!(FetchError::NoEndpoint.message(), "No Endpoint");
    let network = FetchError::Network("connection refused".to_string());
    assert_eq!(network.kind(), ErrorKind::Network);
    assert_eq!(network.message(), "connection refused");
    let decode = FetchError::Decode("expected array".to_string());
    assert_eq!(decode.kind(), ErrorKind::Decode);
    assert_eq!(decode.message(), "expected array");
}

#[test]
fn fetcher_starts_idle_and_loading() {
    let fetcher: Fetcher<u32> = Fetcher::new();
    assert!(fetcher.is_loading());
    assert!(!fetcher.is_pending());
    assert_eq!(fetcher.value(), None);
}

#[test]
fn late_result_of_superseded_fetch_is_discarded() {
    let mut fetcher: Fetcher<&str> = Fetcher::new();
    let a = fetcher.reset().unwrap();
    let b = fetcher.reset().unwrap();
    assert_eq!((a, b), (1, 2));
    assert!(fetcher.complete(b, "B"));
    assert!(!fetcher.complete(a, "A"));
    assert_eq!(fetcher.value(), Some(&"B"));
    assert!(!fetcher.is_pending());
}

#[test]
fn early_result_of_superseded_fetch_is_discarded() {
    let mut fetcher: Fetcher<&str> = Fetcher::new();
    let a = fetcher.reset().unwrap();
    let b = fetcher.reset().unwrap();
    assert!(!fetcher.complete(a, "A"));
    assert!(fetcher.is_loading());
    assert!(fetcher.is_pending());
    assert!(fetcher.complete(b, "B"));
    assert_eq!(fetcher.value(), Some(&"B"));
}

#[test]
fn restart_replaces_the_result_whole() {
    let mut fetcher: Fetcher<Vec<&str>> = Fetcher::new();
    let first = fetcher.reset().unwrap();
    assert!(fetcher.complete(first, vec!["d1", "d2"]));
    let second = fetcher.restart().unwrap();
    assert_eq!(fetcher.value(), Some(&vec!["d1", "d2"]));
    assert!(fetcher.is_pending());
    assert!(fetcher.complete(second, vec!["d2"]));
    assert_eq!(fetcher.value(), Some(&vec!["d2"]));
}

#[test]
fn restart_twice_with_same_answer_is_idempotent() {
    let mut fetcher: Fetcher<Vec<&str>> = Fetcher::new();
    let first = fetcher.restart().unwrap();
    fetcher.complete(first, vec!["d1", "d2"]);
    let shown = fetcher.value().cloned();
    let second = fetcher.restart().unwrap();
    fetcher.complete(second, vec!["d1", "d2"]);
    assert_eq!(fetcher.value().cloned(), shown);
    assert_eq!(shown, Some(vec!["d1", "d2"]));
}

#[test]
fn a_result_is_taken_once() {
    let mut fetcher: Fetcher<u8> = Fetcher::new();
    assert!(!fetcher.complete(0, 9));
    let t = fetcher.restart().unwrap();
    assert!(fetcher.complete(t, 1));
    assert!(!fetcher.complete(t, 2));
    assert_eq!(fetcher.value(), Some(&1));
}

#[test]
fn reset_clears_the_display() {
    let mut fetcher: Fetcher<u8> = Fetcher::new();
    let t = fetcher.restart().unwrap();
    fetcher.complete(t, 1);
    fetcher.reset().unwrap();
    assert!(fetcher.is_loading());
    assert_eq!(fetcher.value(), None);
}

#[test]
fn settled_result_supersedes_the_fetch_under_way() {
    let mut fetcher: Fetcher<&str> = Fetcher::new();
    let t = fetcher.restart().unwrap();
    assert_eq!(fetcher.latest(), t);
    fetcher.settle("known");
    assert!(!fetcher.is_pending());
    assert!(!fetcher.complete(t, "late"));
    assert_eq!(fetcher.value(), Some(&"known"));
    assert_eq!(fetcher.restart(), Some(t + 1));
}
