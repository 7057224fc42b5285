use livescore::driver::{
    get_driver_capabilities, get_driver_cmd, is_driver_process, Driver, DRIVER_PORT,
};

#[test]
fn driver_programs() {
    assert_eq!(get_driver_cmd(Driver::Chromium), "chromedriver");
    assert_eq!(get_driver_cmd(Driver::Firefox), "geckodriver");
}

#[test]
fn driver_port() {
    assert_eq!(DRIVER_PORT, 9515);
}

#[test]
fn driver_capabilities_are_json() {
    let chromium: serde_json::Value =
        serde_json::from_str(get_driver_capabilities(Driver::Chromium)).unwrap();
    assert_eq!(chromium["goog:chromeOptions"]["args"][0], "--headless");
    let firefox: serde_json::Value =
        serde_json::from_str(get_driver_capabilities(Driver::Firefox)).unwrap();
    assert_eq!(firefox["moz:firefoxOptions"]["args"][0], "--headless");
    assert_eq!(
        get_driver_capabilities(Driver::Chromium),
        r#"{"goog:chromeOptions":{"args":["--headless"]}}"#
    );
    assert_eq!(
        get_driver_capabilities(Driver::Firefox),
        r#"{"moz:firefoxOptions": {"args": ["--headless"]}}"#
    );
}

#[test]
fn process_of_a_driver() {
    assert!(is_driver_process(Driver::Chromium, "chromedriver"));
    assert!(is_driver_process(Driver::Firefox, "geckodriver"));
    assert!(!is_driver_process(Driver::Chromium, "geckodriver"));
    assert!(!is_driver_process(Driver::Firefox, "chromedriver"));
    assert!(!is_driver_process(Driver::Chromium, "chromedriver2"));
    assert!(!is_driver_process(Driver::Chromium, "chromedrive"));
    assert!(!is_driver_process(Driver::Chromium, "Chromedriver"));
    assert!(!is_driver_process(Driver::Chromium, "chromedrivex"));
    assert!(!is_driver_process(Driver::Chromium, ""));
}
