use heictojpg::config::{
    calculate_optimal_queue_size, detect_optimal_workers, Config, ConfigOverrides,
};
use heictojpg::error::ConvertError;

fn no_overrides() -> ConfigOverrides {
    ConfigOverrides {
        max_file_size: None,
        max_resolution: None,
        default_quality: None,
        min_quality: None,
        max_quality: None,
        worker_count: None,
        queue_size: None,
        server_port: None,
        request_timeout_secs: None,
        upload_dir: None,
    }
}

#[test]
fn worker_detection_reserves_one_core_on_large_machines() {
    assert_eq!(detect_optimal_workers(1), 2);
    assert_eq!(detect_optimal_workers(2), 2);
    assert_eq!(detect_optimal_workers(4), 4);
    assert_eq!(detect_optimal_workers(5), 4);
    assert_eq!(detect_optimal_workers(8), 7);
    assert_eq!(detect_optimal_workers(32), 31);
}

#[test]
fn queue_size_is_four_per_worker_with_a_floor() {
    assert_eq!(calculate_optimal_queue_size(1), 100);
    assert_eq!(calculate_optimal_queue_size(24), 100);
    assert_eq!(calculate_optimal_queue_size(25), 100);
    assert_eq!(calculate_optimal_queue_size(26), 104);
    assert_eq!(calculate_optimal_queue_size(40), 160);
}

#[test]
fn resolve_applies_documented_defaults() {
    let c = Config::resolve(no_overrides(), 8);
    assert_eq!(c.max_file_size, 50 * 1024 * 1024);
    assert_eq!(c.max_resolution, 16384);
    assert_eq!(c.default_quality, 85);
    assert_eq!(c.min_quality, 60);
    assert_eq!(c.max_quality, 95);
    assert_eq!(c.worker_count, 7);
    assert_eq!(c.queue_size, 100);
    assert_eq!(c.server_port, 3000);
    assert_eq!(c.request_timeout_secs, 30);
    assert_eq!(c.upload_dir, "uploads");
}

#[test]
fn resolve_prefers_every_override() {
    let c = Config::resolve(
        ConfigOverrides {
            max_file_size: Some(1024),
            max_resolution: Some(2000),
            default_quality: Some(70),
            min_quality: Some(10),
            max_quality: Some(90),
            worker_count: Some(3),
            queue_size: Some(5),
            server_port: Some(8080),
            request_timeout_secs: Some(7),
            upload_dir: Some("audit".to_string()),
        },
        64,
    );
    assert_eq!(c.max_file_size, 1024);
    assert_eq!(c.max_resolution, 2000);
    assert_eq!(c.default_quality, 70);
    assert_eq!(c.min_quality, 10);
    assert_eq!(c.max_quality, 90);
    assert_eq!(c.worker_count, 3);
    assert_eq!(c.queue_size, 5);
    assert_eq!(c.server_port, 8080);
    assert_eq!(c.request_timeout_secs, 7);
    assert_eq!(c.upload_dir, "audit");
}

#[test]
fn zero_overrides_fall_back_to_the_defaults() {
    let mut overrides = no_overrides();
    overrides.worker_count = Some(0);
    overrides.queue_size = Some(0);
    overrides.max_resolution = Some(0);
    overrides.min_quality = Some(0);
    overrides.max_quality = Some(0);
    let c = Config::resolve(overrides, 8);
    // The constrained settings must stay positive: a zero override is
    // treated like an unparsable one.
    assert_eq!(c.worker_count, 7);
    assert_eq!(c.queue_size, 100);
    assert_eq!(c.max_resolution, 16384);
    assert_eq!(c.min_quality, 60);
    assert_eq!(c.max_quality, 95);
}

#[test]
fn crossed_quality_bounds_fall_back_to_the_default_pair() {
    let mut overrides = no_overrides();
    overrides.min_quality = Some(90);
    overrides.max_quality = Some(10);
    let c = Config::resolve(overrides, 8);
    assert_eq!(c.min_quality, 60);
    assert_eq!(c.max_quality, 95);
    // A valid pair is taken verbatim.
    let mut valid = no_overrides();
    valid.min_quality = Some(10);
    valid.max_quality = Some(90);
    let c2 = Config::resolve(valid, 8);
    assert_eq!(c2.min_quality, 10);
    assert_eq!(c2.max_quality, 90);
}

#[test]
fn queue_default_follows_overridden_worker_count() {
    let mut overrides = no_overrides();
    overrides.worker_count = Some(40);
    let c = Config::resolve(overrides, 2);
    assert_eq!(c.worker_count, 40);
    assert_eq!(c.queue_size, 160);
}

#[test]
fn status_codes_distinguish_the_error_families() {
    assert_eq!(ConvertError::DecodeError("x".to_string()).status_code(), 400);
    assert_eq!(ConvertError::EncodeError("x".to_string()).status_code(), 500);
    assert_eq!(
        ConvertError::ValidationError("x".to_string()).status_code(),
        400
    );
    assert_eq!(
        ConvertError::FileTooLarge { size: 2, max: 1 }.status_code(),
        413
    );
    assert_eq!(
        ConvertError::ImageTooLarge {
            width: 9,
            height: 9,
            max: 4
        }
        .status_code(),
        400
    );
    assert_eq!(ConvertError::InvalidQuality(1).status_code(), 400);
    assert_eq!(ConvertError::QueueFull.status_code(), 503);
    assert_eq!(ConvertError::Timeout.status_code(), 504);
    assert_eq!(ConvertError::Internal("x".to_string()).status_code(), 500);
}

#[test]
fn infrastructure_errors_are_distinguishable() {
    assert!(ConvertError::Internal("x".to_string()).is_infrastructure());
    assert!(!ConvertError::QueueFull.is_infrastructure());
    assert!(!ConvertError::InvalidQuality(3).is_infrastructure());
}
