use xray_exporter::pool::GrpcClientManager;

#[test]
fn manager_connects_to_its_uri() {
    let manager = GrpcClientManager { uri: "http://127.0.0.1:8080".to_string() };
    assert_eq!(manager.endpoint(), "http://127.0.0.1:8080");
}

#[test]
fn every_connection_is_valid() {
    let manager = GrpcClientManager { uri: "http://127.0.0.1:8080".to_string() };
    let verdict: Result<(), String> = manager.is_valid();
    assert_eq!(verdict, Ok(()));
}

#[test]
fn no_connection_counts_as_broken() {
    let manager = GrpcClientManager { uri: String::new() };
    assert!(!manager.has_broken());
}
