use data_viewer::dialog::{AddProjectCtx, DeleteCtx, DeleteInfo, NewEndpointInfo};
use data_viewer::dialog::{
    confirm_delete_endpoint, confirm_delete_project, submit_new_endpoint, submit_new_project,
};
use data_viewer::directory::{
    check_name, create_endpoint, create_project, Directory, Endpoints, NameError, Projects,
};
use data_viewer::error::ErrorKind;
use data_viewer::endpoint::{Endpoint, EndpointTrait, GeneralEndpoint};
use data_viewer::model::Project;
use data_viewer::notice::NoticeLevel;

#[test]
fn created_endpoint_is_stored_as_general() {
    let mut endpoints: Endpoints = Directory::new();
    let notice = create_endpoint(&mut endpoints, "e1".to_string(), "https://x/api".to_string());
    assert_eq!(notice.level, NoticeLevel::Success);
    assert_eq!(notice.title, "Add endpoint 'e1' success");
    assert_eq!(notice.description, None);
    assert_eq!(notice.seconds, 5);
    assert_eq!(endpoints.len(), 1);
    assert_eq!(endpoints.keys(), vec!["e1".to_string()]);
    let stored = endpoints.get("e1").unwrap();
    assert_eq!(
        *stored,
        Endpoint::General(GeneralEndpoint { base_url: "https://x/api".to_string() })
    );
    assert_eq!(stored.metadata(), "https://x/api/metadata");
}

#[test]
fn duplicate_project_name_is_rejected() {
    let mut projects: Projects = Directory::new();
    let first = create_project(&mut projects, "p".to_string(), "K1".to_string(), "e1".to_string());
    assert_eq!(first.level, NoticeLevel::Success);
    assert_eq!(first.title, "Add project 'p' success");
    let second = create_project(&mut projects, "p".to_string(), "K2".to_string(), "e2".to_string());
    assert_eq!(second.level, NoticeLevel::Error);
    assert_eq!(second.title, "Add project Failed");
    assert_eq!(second.description, Some("name is already exist or empty".to_string()));
    assert_eq!(second.seconds, 5);
    assert_eq!(projects.len(), 1);
    assert_eq!(
        *projects.get("p").unwrap(),
        Project { project_key: "K1".to_string(), endpoint_key: "e1".to_string() }
    );
}

#[test]
fn empty_name_is_rejected() {
    let mut endpoints: Endpoints = Directory::new();
    let notice = create_endpoint(&mut endpoints, String::new(), "u".to_string());
    assert_eq!(notice.level, NoticeLevel::Error);
    assert_eq!(notice.title, "Add endpoint Failed");
    assert!(endpoints.is_empty());
    let mut projects: Projects = Directory::new();
    let notice = create_project(&mut projects, String::new(), "k".to_string(), "e".to_string());
    assert_eq!(notice.level, NoticeLevel::Error);
    assert!(projects.is_empty());
}

#[test]
fn insert_never_overwrites() {
    let mut dir: Directory<u32> = Directory::new();
    assert!(dir.insert("a".to_string(), 1));
    assert!(dir.insert("b".to_string(), 2));
    assert!(!dir.insert("a".to_string(), 3));
    assert_eq!(dir.get("a"), Some(&1));
    assert_eq!(dir.get("b"), Some(&2));
    assert_eq!(dir.get("c"), None);
    assert!(dir.contains_key("a"));
    assert!(!dir.contains_key("c"));
    assert_eq!(dir.keys(), vec!["a".to_string(), "b".to_string()]);
    assert_eq!(dir.len(), 2);
}

#[test]
fn remove_is_a_no_op_when_absent() {
    let mut dir: Directory<u32> = Directory::new();
    dir.insert("a".to_string(), 1);
    dir.insert("b".to_string(), 2);
    dir.insert("c".to_string(), 3);
    assert!(!dir.remove("zz"));
    assert_eq!(dir.len(), 3);
    assert!(dir.remove("b"));
    assert_eq!(dir.keys(), vec!["a".to_string(), "c".to_string()]);
    assert_eq!(dir.get("b"), None);
    assert!(!dir.remove("b"));
    assert!(dir.insert("b".to_string(), 9));
    assert_eq!(dir.keys(), vec!["a".to_string(), "c".to_string(), "b".to_string()]);
    assert_eq!(dir.get("b"), Some(&9));
}

#[test]
fn endpoint_dialog_closes_on_success_and_stays_on_refusal() {
    let mut endpoints: Endpoints = Directory::new();
    let mut info = NewEndpointInfo::default();
    info.open_dialog();
    assert!(info.is_open);
    info.name = "e1".to_string();
    info.endpoint_url = "https://x/api".to_string();
    let notice = submit_new_endpoint(&mut info, &mut endpoints);
    assert_eq!(notice.level, NoticeLevel::Success);
    assert_eq!(info, NewEndpointInfo { name: String::new(), endpoint_url: String::new(), is_open: false });
    assert_eq!(endpoints.get("e1").unwrap().baseurl(), "https://x/api");

    info.open_dialog();
    info.name = "e1".to_string();
    info.endpoint_url = "other".to_string();
    let notice = submit_new_endpoint(&mut info, &mut endpoints);
    assert_eq!(notice.level, NoticeLevel::Error);
    assert_eq!(
        info,
        NewEndpointInfo { name: "e1".to_string(), endpoint_url: "other".to_string(), is_open: true }
    );
    assert_eq!(endpoints.get("e1").unwrap().baseurl(), "https://x/api");
    assert_eq!(endpoints.len(), 1);
}

#[test]
fn project_dialog_closes_on_success_and_stays_on_refusal() {
    let mut projects: Projects = Directory::new();
    let mut ctx = AddProjectCtx::default();
    ctx.open_dialog();
    ctx.name = "p".to_string();
    ctx.project_key = "PK1".to_string();
    ctx.endpoint_key = "e1".to_string();
    let notice = submit_new_project(&mut ctx, &mut projects);
    assert_eq!(notice.title, "Add project 'p' success");
    assert_eq!(ctx, AddProjectCtx::default());
    assert_eq!(projects.get("p").unwrap().project_key, "PK1");
    assert_eq!(projects.get("p").unwrap().endpoint_key, "e1");

    ctx.open_dialog();
    let notice = submit_new_project(&mut ctx, &mut projects);
    assert_eq!(notice.level, NoticeLevel::Error);
    assert!(ctx.is_open);
    assert_eq!(projects.len(), 1);
}

#[test]
fn delete_dialogs_remove_their_target() {
    let mut endpoints: Endpoints = Directory::new();
    create_endpoint(&mut endpoints, "e1".to_string(), "u1".to_string());
    create_endpoint(&mut endpoints, "e2".to_string(), "u2".to_string());
    let mut info = DeleteInfo::default();
    info.prompt_delete("e1");
    assert_eq!(info, DeleteInfo { is_open: true, target: "e1".to_string() });
    confirm_delete_endpoint(&mut info, &mut endpoints);
    assert_eq!(info, DeleteInfo { is_open: false, target: String::new() });
    assert_eq!(endpoints.keys(), vec!["e2".to_string()]);

    let mut projects: Projects = Directory::new();
    create_project(&mut projects, "p".to_string(), "k".to_string(), "e2".to_string());
    let mut ctx = DeleteCtx::default();
    ctx.prompt_delete("missing");
    confirm_delete_project(&mut ctx, &mut projects);
    assert!(!ctx.is_open);
    assert_eq!(projects.len(), 1);
    ctx.prompt_delete("p");
    confirm_delete_project(&mut ctx, &mut projects);
    assert!(projects.is_empty());
}

#[test]
fn names_are_checked_before_they_are_stored() {
    let mut dir: Directory<u32> = Directory::new();
    assert_eq!(check_name(&dir, ""), Err(NameError::Empty));
    assert_eq!(check_name(&dir, "a"), Ok(()));
    dir.insert("a".to_string(), 1);
    assert_eq!(check_name(&dir, "a"), Err(NameError::Taken));
    assert_eq!(check_name(&dir, "b"), Ok(()));
    assert_eq!(check_name(&dir, " "), Ok(()));
    assert_eq!(NameError::Empty.kind(), ErrorKind::Validation);
    assert_eq!(NameError::Taken.kind(), ErrorKind::Validation);
}
