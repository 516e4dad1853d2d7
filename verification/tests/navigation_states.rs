use data_viewer::navigation::{NavAction, PageContext, ViewStatus};

fn consistent(ctx: &PageContext) -> bool {
    let sensor_ok = ctx.selected_sensor().is_some() == (ctx.view_status() == ViewStatus::SensorAttr);
    let device_ok = ctx.selected_device().is_some() == (ctx.view_status() != ViewStatus::Device);
    sensor_ok && device_ok
}

#[test]
fn page_starts_on_the_device_list() {
    let ctx = PageContext::new();
    assert_eq!(ctx.view_status(), ViewStatus::Device);
    assert_eq!(ctx.selected_device(), None);
    assert_eq!(ctx.selected_sensor(), None);
}

#[test]
fn drill_down_and_back_up() {
    let mut ctx = PageContext::new();
    ctx.view_sensors("d1");
    assert_eq!(ctx.view_status(), ViewStatus::Sensor);
    assert_eq!(ctx.selected_device(), Some(&"d1".to_string()));
    assert_eq!(ctx.selected_sensor(), None);
    ctx.view_sensor_attr("s1");
    assert_eq!(ctx.view_status(), ViewStatus::SensorAttr);
    assert_eq!(ctx.selected_device(), Some(&"d1".to_string()));
    assert_eq!(ctx.selected_sensor(), Some(&"s1".to_string()));
    ctx.back_to_sensors();
    assert_eq!(ctx.view_status(), ViewStatus::Sensor);
    assert_eq!(ctx.selected_device(), Some(&"d1".to_string()));
    assert_eq!(ctx.selected_sensor(), None);
    ctx.back_to_device();
    assert_eq!(ctx, PageContext::new());
}

#[test]
fn device_attributes_and_back() {
    let mut ctx = PageContext::new();
    ctx.view_device_attr("d2");
    assert_eq!(ctx.view_status(), ViewStatus::DeviceAttr);
    assert_eq!(ctx.selected_device(), Some(&"d2".to_string()));
    assert_eq!(ctx.selected_sensor(), None);
    ctx.back();
    assert_eq!(ctx, PageContext::new());
}

#[test]
fn back_goes_one_level_up() {
    let mut ctx = PageContext::new();
    ctx.view_sensors("d1");
    ctx.view_sensor_attr("s1");
    ctx.back();
    assert_eq!(ctx.view_status(), ViewStatus::Sensor);
    assert_eq!(ctx.selected_sensor(), None);
    ctx.back();
    assert_eq!(ctx.view_status(), ViewStatus::Device);
    assert_eq!(ctx.selected_device(), None);
    ctx.back();
    assert_eq!(ctx, PageContext::new());
}

#[test]
fn project_switch_clears_both_selections() {
    let mut ctx = PageContext::new();
    ctx.view_sensors("d1");
    ctx.view_sensor_attr("s1");
    ctx.reset();
    assert_eq!(ctx, PageContext::new());
}

#[test]
fn apply_ignores_what_is_not_on_offer() {
    let mut ctx = PageContext::new();
    assert!(!ctx.apply(&NavAction::ViewSensorAttr("s1".to_string())));
    assert_eq!(ctx, PageContext::new());
    assert!(ctx.apply(&NavAction::ViewSensors("d1".to_string())));
    assert!(!ctx.apply(&NavAction::ViewSensors("d2".to_string())));
    assert!(!ctx.apply(&NavAction::ViewDeviceAttr("d2".to_string())));
    assert_eq!(ctx.selected_device(), Some(&"d1".to_string()));
    assert!(ctx.apply(&NavAction::ViewSensorAttr("s1".to_string())));
    assert!(!ctx.apply(&NavAction::ViewSensorAttr("s2".to_string())));
    assert_eq!(ctx.selected_sensor(), Some(&"s1".to_string()));
    assert!(ctx.apply(&NavAction::BackToDevice));
    assert_eq!(ctx, PageContext::new());
}

#[test]
fn every_reachable_state_is_consistent() {
    let actions = |n: u32| -> NavAction {
        match n % 6 {
            0 => NavAction::ViewSensors(format!("d{n}")),
            1 => NavAction::ViewDeviceAttr(format!("d{n}")),
            2 => NavAction::ViewSensorAttr(format!("s{n}")),
            3 => NavAction::Back,
            4 => NavAction::BackToDevice,
            _ => NavAction::SwitchProject,
        }
    };
    let mut seed: u32 = 12345;
    let mut ctx = PageContext::new();
    let mut seen_sensor_attr = false;
    for _ in 0..5000 {
        seed = seed.wrapping_mul(1664525).wrapping_add(1013904223);
        ctx.apply(&actions(seed >> 16));
        assert!(consistent(&ctx));
        if ctx.view_status() == ViewStatus::SensorAttr {
            seen_sensor_attr = true;
            assert!(ctx.selected_device().is_some() && ctx.selected_sensor().is_some());
        }
        if ctx.view_status() == ViewStatus::Device {
            assert!(ctx.selected_device().is_none() && ctx.selected_sensor().is_none());
        }
    }
    assert!(seen_sensor_attr);
}

#[test]
fn clone_keeps_the_state() {
    let mut ctx = PageContext::new();
    ctx.view_sensors("d1");
    ctx.view_sensor_attr("s1");
    assert_eq!(ctx.clone(), ctx);
}
