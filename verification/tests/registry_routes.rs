use hald::registry::{ApiHandler, ApiRegister, ApiRoute, DispatchResult};
use hald::routes::{
    backlight_info_json,
    brightness_json,
    invalid_brightness_text,
    missing_brightness_text,
    ok_text,
    register_backlight_device,
    register_imu_device,
    register_screen_device,
};

fn route(path: &str, desc: &str) -> ApiRoute {
    ApiRoute {
        path: path.to_string(),
        method: "GET".to_string(),
        description: desc.to_string(),
    }
}

#[test]
fn unknown_route_is_404_not_found() {
    let reg = ApiRegister::new();
    match reg.invoke_api("/unknown", "GET") {
        DispatchResult::NotFound(status, body) => {
            assert_eq!(status, 404);
            assert_eq!(body, "Not Found");
        },
        DispatchResult::Found(_) => panic!("unregistered route dispatched"),
    }
}

#[test]
fn builtin_routes_dispatch() {
    let reg = ApiRegister::new();
    assert!(matches!(reg.invoke_api("/apis", "GET"), DispatchResult::Found(ApiHandler::ListApis)));
    assert!(matches!(
        reg.invoke_api("/devices", "GET"),
        DispatchResult::Found(ApiHandler::ListDevices)
    ));
    // The method is part of the key.
    assert!(matches!(reg.invoke_api("/apis", "POST"), DispatchResult::NotFound(..)));
}

#[test]
fn duplicate_route_is_refused() {
    let mut reg = ApiRegister::new();
    assert!(reg.add_api(route("/x", "one"), ApiHandler::ScreenInfo(0)).is_ok());
    let err = reg.add_api(route("/x", "two"), ApiHandler::ScreenInfo(1)).unwrap_err();
    assert!(err.starts_with("api route already exists: "));
    // The description plays no part in the key.
    assert_eq!(reg.routes.len(), 3);
}

#[test]
fn apis_listing_keeps_insertion_order() {
    let mut reg = ApiRegister::new();
    reg.add_api(route("/zeta", "later"), ApiHandler::ScreenInfo(0)).unwrap();
    reg.add_api(route("/alpha", "earlier name, later entry"), ApiHandler::ScreenInfo(1)).unwrap();
    let listing = reg.apis_json();
    let apis = listing.find("/apis").unwrap();
    let devices = listing.find("/devices").unwrap();
    let zeta = listing.find("/zeta").unwrap();
    let alpha = listing.find("/alpha").unwrap();
    assert!(apis < devices && devices < zeta && zeta < alpha);
    // And it is valid JSON of the right length.
    let v: serde_json::Value = serde_json::from_str(&listing).unwrap();
    assert_eq!(v.as_array().unwrap().len(), 4);
    assert_eq!(v[2]["path"].as_str(), Some("/zeta"));
    assert_eq!(v[2]["method"].as_str(), Some("GET"));
    assert_eq!(v[2]["description"].as_str(), Some("later"));
}

#[test]
fn devices_listing_in_registration_order() {
    let mut reg = ApiRegister::new();
    reg.add_device("screen0".to_string());
    reg.add_device("imu0".to_string());
    reg.add_device("screen0".to_string());  // duplicate: ignored
    assert_eq!(reg.devices_json(), "[\"screen0\",\"imu0\"]");
}

#[test]
fn backlight_registration_exposes_three_routes() {
    let mut reg = ApiRegister::new();
    register_backlight_device(&mut reg, "backlight0", 0);
    assert!(matches!(
        reg.invoke_api("/backlight0/info", "GET"),
        DispatchResult::Found(ApiHandler::BacklightInfo(0))
    ));
    assert!(matches!(
        reg.invoke_api("/backlight0/get", "GET"),
        DispatchResult::Found(ApiHandler::BacklightGet(0))
    ));
    assert!(matches!(
        reg.invoke_api("/backlight0/set", "GET"),
        DispatchResult::Found(ApiHandler::BacklightSet(0))
    ));
    assert_eq!(reg.devices_json(), "[\"backlight0\"]");
}

#[test]
fn imu_registration_exposes_four_routes() {
    let mut reg = ApiRegister::new();
    register_imu_device(&mut reg, "imu0", 0);
    assert!(matches!(
        reg.invoke_api("/imu0/start", "GET"),
        DispatchResult::Found(ApiHandler::ImuStart(0))
    ));
    assert!(matches!(
        reg.invoke_api("/imu0/stop", "GET"),
        DispatchResult::Found(ApiHandler::ImuStop(0))
    ));
    assert!(matches!(
        reg.invoke_api("/imu0/schema", "GET"),
        DispatchResult::Found(ApiHandler::ImuSchema(0))
    ));
    assert!(matches!(
        reg.invoke_api("/imu0/info", "GET"),
        DispatchResult::Found(ApiHandler::ImuInfo(0))
    ));
}

#[test]
fn screen_registration_exposes_info() {
    let mut reg = ApiRegister::new();
    register_screen_device(&mut reg, "screen1", 1);
    assert!(matches!(
        reg.invoke_api("/screen1/info", "GET"),
        DispatchResult::Found(ApiHandler::ScreenInfo(1))
    ));
}

#[test]
fn backlight_endpoint_texts() {
    assert_eq!(ok_text(), "ok");
    assert_eq!(missing_brightness_text(), "missing brightness parameter");
    assert_eq!(
        invalid_brightness_text(),
        "invalid brightness value, must be a number between 0.0 and 1.0"
    );
    assert_eq!(brightness_json("1.0"), "{\"brightness\":1.0}");
    let info = backlight_info_json("0.5", "/sys/class/backlight/panel", 2047);
    let v: serde_json::Value = serde_json::from_str(&info).unwrap();
    assert_eq!(v["max_brightness"].as_u64(), Some(2047));
    assert_eq!(v["device_type"].as_str(), Some("/sys/class/backlight/panel"));
    assert_eq!(v["current_brightness"].as_f64(), Some(0.5));
}

#[test]
fn backlight_info_escapes_device_type() {
    let info = backlight_info_json("0.25", "odd\"panel", 100);
    let v: serde_json::Value = serde_json::from_str(&info).unwrap();
    assert_eq!(v["device_type"].as_str(), Some("odd\"panel"));
}

#[test]
fn registration_fills_only_missing_routes() {
    // A key already taken is skipped; the other endpoints still join.
    let mut reg = ApiRegister::new();
    reg.add_api(route("/backlight0/get", "taken earlier"), ApiHandler::ScreenInfo(7)).unwrap();
    register_backlight_device(&mut reg, "backlight0", 0);
    assert!(matches!(
        reg.invoke_api("/backlight0/get", "GET"),
        DispatchResult::Found(ApiHandler::ScreenInfo(7))
    ));
    assert!(matches!(
        reg.invoke_api("/backlight0/info", "GET"),
        DispatchResult::Found(ApiHandler::BacklightInfo(0))
    ));
    assert!(matches!(
        reg.invoke_api("/backlight0/set", "GET"),
        DispatchResult::Found(ApiHandler::BacklightSet(0))
    ));
}
