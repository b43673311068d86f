//! Process configuration: immutable after construction.
//!
//! The environment is read at the boundary of the process; this module only
//! holds the decisions: which default each setting falls back to, how the
//! worker count is chosen from the detected parallelism, and how the queue
//! capacity is derived from the worker count.

use vstd::prelude::*;
use vstd::string::StringExecFns;

verus! {

/// Default upload size limit, in bytes.
pub const DEFAULT_MAX_FILE_SIZE: usize = 50 * 1024 * 1024;
/// Default limit on either image dimension.
pub const DEFAULT_MAX_RESOLUTION: u32 = 16384;
/// Default JPEG quality when the request names none.
pub const DEFAULT_QUALITY: u8 = 85;
/// Lowest quality accepted by default.
pub const DEFAULT_MIN_QUALITY: u8 = 60;
/// Highest quality accepted by default.
pub const DEFAULT_MAX_QUALITY: u8 = 95;
/// Default server port.
pub const DEFAULT_SERVER_PORT: u16 = 3000;
/// Default per-request timeout, in seconds.
pub const DEFAULT_REQUEST_TIMEOUT_SECS: u64 = 30;

/// Process-wide configuration, shared read-only by every component.
#[derive(Debug, Clone)]
pub struct Config {
    /// Maximum file size allowed in bytes.
    pub max_file_size: usize,
    /// Maximum image resolution (width or height).
    pub max_resolution: u32,
    /// Default JPEG quality.
    pub default_quality: u8,
    /// Minimum allowed quality.
    pub min_quality: u8,
    /// Maximum allowed quality.
    pub max_quality: u8,
    /// Number of concurrent conversion workers.
    pub worker_count: usize,
    /// Maximum pending jobs in the queue.
    pub queue_size: usize,
    /// Server port.
    pub server_port: u16,
    /// Request timeout in seconds.
    pub request_timeout_secs: u64,
    /// Directory that keeps uploaded files for audit.
    pub upload_dir: String,
}

/// Settings read from the environment; `None` where a variable is absent
/// or failed to parse, so that the documented default applies.
pub struct ConfigOverrides {
    pub max_file_size: Option<usize>,
    pub max_resolution: Option<u32>,
    pub default_quality: Option<u8>,
    pub min_quality: Option<u8>,
    pub max_quality: Option<u8>,
    pub worker_count: Option<usize>,
    pub queue_size: Option<usize>,
    pub server_port: Option<u16>,
    pub request_timeout_secs: Option<u64>,
    pub upload_dir: Option<String>,
}

/// Worker count chosen for a machine with `logical_cores` logical cores:
/// all cores on small machines, one reserved for I/O above four, and
/// never fewer than two.
pub open spec fn spec_optimal_workers(logical_cores: usize) -> usize {
    let base: usize = if logical_cores > 4 {
        (logical_cores - 1) as usize
    } else {
        logical_cores
    };
    if base >= 2 {
        base
    } else {
        2
    }
}

/// Queue capacity derived from a worker count: four slots per worker for
/// burst absorption, and at least one hundred.
pub open spec fn spec_optimal_queue_size(worker_count: usize) -> usize {
    if worker_count * 4 >= 100 {
        (worker_count * 4) as usize
    } else {
        100
    }
}

/// Choose the worker count for a machine whose detected parallelism is
/// `logical_cores`: reserve one core for I/O when there are more than
/// four, and keep at least two workers.
pub fn detect_optimal_workers(logical_cores: usize) -> (r: usize)
    ensures
        r == spec_optimal_workers(logical_cores),
{
    let workers: usize = if logical_cores > 4 {
        logical_cores - 1
    } else {
        logical_cores
    };
    if workers >= 2 {
        workers
    } else {
        2
    }
}

/// Derive the queue capacity from the worker count: large enough to absorb
/// bursts, with a floor of one hundred for small worker counts.
pub fn calculate_optimal_queue_size(worker_count: usize) -> (r: usize)
    requires
        worker_count * 4 <= usize::MAX,
    ensures
        r == spec_optimal_queue_size(worker_count),
{
    let base_queue: usize = worker_count * 4;
    if base_queue >= 100 {
        base_queue
    } else {
        100
    }
}

/// The overriding value where one is present and positive; otherwise the
/// default. The settings this resolves must be positive, so a zero
/// override is treated like an unparsable one.
pub open spec fn positive_usize_or(o: Option<usize>, d: usize) -> usize {
    match o {
        Some(v) => if v >= 1 {
            v
        } else {
            d
        },
        None => d,
    }
}

/// As `positive_usize_or`, for a `u32` setting.
pub open spec fn positive_u32_or(o: Option<u32>, d: u32) -> u32 {
    match o {
        Some(v) => if v >= 1 {
            v
        } else {
            d
        },
        None => d,
    }
}

/// As `positive_usize_or`, for a `u8` setting.
pub open spec fn positive_u8_or(o: Option<u8>, d: u8) -> u8 {
    match o {
        Some(v) => if v >= 1 {
            v
        } else {
            d
        },
        None => d,
    }
}

/// The resolved quality bounds: each bound falls back to its default when
/// absent or zero, and a crossed pair — minimum above maximum — falls back
/// to the default pair, so the resolved bounds always satisfy
/// `1 <= min <= max`.
pub open spec fn spec_quality_bounds(min_o: Option<u8>, max_o: Option<u8>) -> (u8, u8) {
    let lo = positive_u8_or(min_o, DEFAULT_MIN_QUALITY);
    let hi = positive_u8_or(max_o, DEFAULT_MAX_QUALITY);
    if lo <= hi {
        (lo, hi)
    } else {
        (DEFAULT_MIN_QUALITY, DEFAULT_MAX_QUALITY)
    }
}

impl Config {
    /// Build the configuration from the settings found in the environment,
    /// falling back to the documented default wherever a setting is absent
    /// or invalid: the worker count, queue capacity, resolution limit and
    /// quality bounds must be positive with `min_quality <= max_quality`,
    /// so a zero override — or a crossed quality pair — is treated like an
    /// unparsable one. The worker count defaults to what
    /// `detect_optimal_workers` picks for the detected parallelism, and
    /// the queue capacity defaults to what `calculate_optimal_queue_size`
    /// derives from the resolved worker count.
    pub fn resolve(overrides: ConfigOverrides, logical_cores: usize) -> (c: Config)
        requires
            logical_cores <= usize::MAX / 4,
            overrides.worker_count matches Some(w) ==> w <= usize::MAX / 4,
        ensures
            c.worker_count >= 1,
            c.queue_size >= 1,
            c.max_resolution >= 1,
            1 <= c.min_quality <= c.max_quality,
            c.max_file_size == (match overrides.max_file_size {
                Some(v) => v,
                None => DEFAULT_MAX_FILE_SIZE,
            }),
            c.max_resolution == positive_u32_or(overrides.max_resolution, DEFAULT_MAX_RESOLUTION),
            c.default_quality == (match overrides.default_quality {
                Some(v) => v,
                None => DEFAULT_QUALITY,
            }),
            (c.min_quality, c.max_quality) == spec_quality_bounds(
                overrides.min_quality,
                overrides.max_quality,
            ),
            c.worker_count == positive_usize_or(
                overrides.worker_count,
                spec_optimal_workers(logical_cores),
            ),
            c.queue_size == positive_usize_or(
                overrides.queue_size,
                spec_optimal_queue_size(c.worker_count),
            ),
            c.server_port == (match overrides.server_port {
                Some(v) => v,
                None => DEFAULT_SERVER_PORT,
            }),
            c.request_timeout_secs == (match overrides.request_timeout_secs {
                Some(v) => v,
                None => DEFAULT_REQUEST_TIMEOUT_SECS,
            }),
            (overrides.upload_dir matches Some(d) ==> c.upload_dir == d),
            (overrides.upload_dir is None ==> c.upload_dir@ == "uploads"@),
    {
        let worker_count: usize = match overrides.worker_count {
            Some(v) => {
                if v >= 1 {
                    v
                } else {
                    detect_optimal_workers(logical_cores)
                }
            },
            None => detect_optimal_workers(logical_cores),
        };
        let queue_size: usize = match overrides.queue_size {
            Some(v) => {
                if v >= 1 {
                    v
                } else {
                    calculate_optimal_queue_size(worker_count)
                }
            },
            None => calculate_optimal_queue_size(worker_count),
        };
        let min_candidate: u8 = match overrides.min_quality {
            Some(v) => {
                if v >= 1 {
                    v
                } else {
                    DEFAULT_MIN_QUALITY
                }
            },
            None => DEFAULT_MIN_QUALITY,
        };
        let max_candidate: u8 = match overrides.max_quality {
            Some(v) => {
                if v >= 1 {
                    v
                } else {
                    DEFAULT_MAX_QUALITY
                }
            },
            None => DEFAULT_MAX_QUALITY,
        };
        let (min_quality, max_quality): (u8, u8) = if min_candidate <= max_candidate {
            (min_candidate, max_candidate)
        } else {
            (DEFAULT_MIN_QUALITY, DEFAULT_MAX_QUALITY)
        };
        Config {
            max_file_size: match overrides.max_file_size {
                Some(v) => v,
                None => DEFAULT_MAX_FILE_SIZE,
            },
            max_resolution: match overrides.max_resolution {
                Some(v) => {
                    if v >= 1 {
                        v
                    } else {
                        DEFAULT_MAX_RESOLUTION
                    }
                },
                None => DEFAULT_MAX_RESOLUTION,
            },
            default_quality: match overrides.default_quality {
                Some(v) => v,
                None => DEFAULT_QUALITY,
            },
            min_quality,
            max_quality,
            worker_count,
            queue_size,
            server_port: match overrides.server_port {
                Some(v) => v,
                None => DEFAULT_SERVER_PORT,
            },
            request_timeout_secs: match overrides.request_timeout_secs {
                Some(v) => v,
                None => DEFAULT_REQUEST_TIMEOUT_SECS,
            },
            upload_dir: match overrides.upload_dir {
                Some(d) => d,
                None => String::from_str("uploads"),
            },
        }
    }
}

} // verus!
