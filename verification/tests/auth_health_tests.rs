use airport_distance::auth::ApiCredentials;
use airport_distance::health::{
    HostnameProvider, MockFailedHostnameProvider, MockSuccessfulHostnameProvider,
    MockTimeProvider, SystemTimeProvider, TimeProvider, Timestamp, check_health,
};

#[test]
fn test_auth() {
    let credentials = ApiCredentials::new("test", "test");
    assert!(credentials.validate("test", Some("test")));
}

#[test]
fn test_returns_401_if_no_credentials_provided() {
    let credentials = ApiCredentials::new("test", "test");
    assert!(!credentials.validate("test", None));
}

#[test]
fn test_returns_401_if_incorrect_credentials_provided() {
    let credentials = ApiCredentials::new("test", "test");
    assert!(!credentials.validate("test", Some("wrong_password")));
    assert!(!credentials.validate("somebody_else", Some("test")));
}

#[test]
fn test_successful_health_check() {
    let time = MockTimeProvider::new(Timestamp { seconds: 123456789 });
    let hostname = MockSuccessfulHostnameProvider::new("test-hostname".to_string());
    let response = check_health(time.now(), hostname.get());
    assert!(response.healthy);
    assert_eq!(response.timestamp, 123456789);
    assert_eq!(response.hostname, "test-hostname");
    assert_eq!(response.message, "ok");
}

#[test]
fn test_health_check_time_unsuccessful() {
    let time = MockTimeProvider::new(Timestamp { seconds: -1 });
    let hostname = MockSuccessfulHostnameProvider::new("test-hostname".to_string());
    let response = check_health(time.now(), hostname.get());
    assert!(!response.healthy);
    assert_eq!(response.timestamp, 0);
    assert_eq!(response.hostname, "test-hostname");
    assert_eq!(response.message, "second time provided was later than self");
}

#[test]
fn test_health_check_hostname_unsuccessful() {
    let time = MockTimeProvider::new(Timestamp { seconds: 123456789 });
    let hostname = MockFailedHostnameProvider::new();
    let response = check_health(time.now(), hostname.get());
    assert!(!response.healthy);
    assert_eq!(response.timestamp, 123456789);
    assert_eq!(response.hostname, "unknown");
    assert_eq!(response.message, "mock error");
}

#[test]
fn test_health_check_time_and_hostname_unsuccessful() {
    let time = MockTimeProvider::new(Timestamp { seconds: -1 });
    let hostname = MockFailedHostnameProvider::new();
    let response = check_health(time.now(), hostname.get());
    assert!(!response.healthy);
    assert_eq!(response.timestamp, 0);
    assert_eq!(response.hostname, "unknown");
    assert_eq!(response.message, "second time provided was later than self;mock error");
}

#[test]
fn test_system_clock_reads_after_epoch() {
    let provider = SystemTimeProvider::new();
    // The machine's clock stands well after the epoch; the reading must too.
    assert!(provider.now().seconds > 0);
}
