use todo_core::health::{
    health_status, HealthController, HealthStatusResponse, STATUS_NOT_OK, STATUS_OK,
};

#[test]
fn health_is_ok_when_the_store_answers() {
    let probe: Result<(), String> = Ok(());
    assert_eq!(
        health_status(&probe),
        HealthStatusResponse { api: "OK".to_string(), database: "OK".to_string() }
    );
}

#[test]
fn health_is_nok_when_the_store_fails() {
    let probe: Result<(), String> = Err("timed out".to_string());
    assert_eq!(
        health_status(&probe),
        HealthStatusResponse { api: "OK".to_string(), database: "NOK".to_string() }
    );
    let refused: Result<u8, u8> = Err(3);
    assert_eq!(health_status(&refused).database, STATUS_NOT_OK);
    assert_eq!(health_status(&refused).api, STATUS_OK);
}

#[test]
fn controller_starts_with_nothing_set() {
    let controller: HealthController<u8> = HealthController::new();
    assert!(!controller.is_ready());
}

#[test]
fn controller_needs_prefix_and_service() {
    assert!(!HealthController::<u8>::new().with_prefix("/health").is_ready());
    assert!(!HealthController::new().with_service(7u8).is_ready());
    assert!(HealthController::new().with_prefix("/health").with_service(7u8).is_ready());
    assert!(HealthController::new().with_service(7u8).with_prefix("/health").is_ready());
}

#[test]
fn controller_tells_what_is_set() {
    let empty: HealthController<u8> = HealthController::new();
    assert!(!empty.has_prefix());
    assert!(!empty.has_service());
    let prefixed = empty.with_prefix("/health");
    assert!(prefixed.has_prefix());
    assert!(!prefixed.has_service());
    let served = HealthController::new().with_service(7u8);
    assert!(!served.has_prefix());
    assert!(served.has_service());
}

#[test]
fn controller_builds_the_route() {
    let route = HealthController::new().with_prefix("/health").with_service("probe").build();
    assert_eq!(route.prefix, "/health");
    assert_eq!(route.service, "probe");
}

#[test]
fn controller_keeps_the_last_value() {
    let route = HealthController::new()
        .with_prefix("/a")
        .with_service(1u8)
        .with_prefix("/b")
        .with_service(2u8)
        .build();
    assert_eq!(route.prefix, "/b");
    assert_eq!(route.service, 2);
}
