use vstd::prelude::*;

verus! {

/// A point in time, as whole seconds relative to the Unix epoch (negative
/// values lie before the epoch).
///
/// The system clock itself is read by `SystemTimeProvider`; the library
/// only decides what a reading means for the health report.
#[derive(Clone, Copy, PartialEq, Eq, Structural, Debug)]
pub struct Timestamp {
    pub seconds: i64,
}

pub trait TimeProvider {
    fn now(&self) -> Timestamp;
}

pub struct SystemTimeProvider;

impl SystemTimeProvider {
    pub fn new() -> (r: Self)
        ensures
            r == (SystemTimeProvider),
    {
        Self {}
    }
}

/// Relies on `std::time::SystemTime::now` (with `duration_since` and
/// `as_secs` converting the reading to whole seconds relative to the
/// epoch, rounded toward minus infinity so that a reading before the
/// epoch stays negative). Nothing is promised of the clock's value.
#[verifier::external_body]
fn system_clock_now() -> Timestamp {
    match std::time::SystemTime::now().duration_since(std::time::UNIX_EPOCH) {
        Ok(since) => Timestamp { seconds: since.as_secs() as i64 },
        Err(e) => {
            let before = e.duration();
            let carry: u64 = if before.subsec_nanos() > 0 {
                1
            } else {
                0
            };
            Timestamp { seconds: -((before.as_secs() + carry) as i64) }
        },
    }
}

impl TimeProvider for SystemTimeProvider {
    fn now(&self) -> Timestamp {
        system_clock_now()
    }
}

pub struct MockTimeProvider {
    pub mock_now: Timestamp,
}

impl MockTimeProvider {
    pub fn new(mock_now: Timestamp) -> (r: Self)
        ensures
            r.mock_now == mock_now,
    {
        Self { mock_now }
    }
}

impl TimeProvider for MockTimeProvider {
    fn now(&self) -> (r: Timestamp)
        ensures
            r == self.mock_now,
    {
        self.mock_now
    }
}

pub trait HostnameProvider {
    fn get(&self) -> Result<String, String>;
}

pub struct HostnameCrateHostnameProvider;

impl HostnameCrateHostnameProvider {
    pub fn new() -> (r: Self)
        ensures
            r == (HostnameCrateHostnameProvider),
    {
        Self {}
    }
}

/// Relies on `hostname::get` (converting its native string to text,
/// accepting the possible loss of data, and a failure to its message).
/// Nothing is promised of the machine's name.
#[verifier::external_body]
fn machine_hostname() -> Result<String, String> {
    match hostname::get() {
        Ok(name) => Ok(name.to_string_lossy().to_string()),
        Err(e) => Err(e.to_string()),
    }
}

impl HostnameProvider for HostnameCrateHostnameProvider {
    fn get(&self) -> Result<String, String> {
        machine_hostname()
    }
}

pub struct MockSuccessfulHostnameProvider {
    pub mock_hostname: String,
}

impl MockSuccessfulHostnameProvider {
    pub fn new(mock_hostname: String) -> (r: Self)
        ensures
            r.mock_hostname == mock_hostname,
    {
        Self { mock_hostname }
    }
}

impl HostnameProvider for MockSuccessfulHostnameProvider {
    fn get(&self) -> (r: Result<String, String>)
        ensures
            r matches Ok(h) && h == self.mock_hostname,
    {
        Ok(self.mock_hostname.clone())
    }
}

pub struct MockFailedHostnameProvider;

impl MockFailedHostnameProvider {
    pub fn new() -> (r: Self)
        ensures
            r == (MockFailedHostnameProvider),
    {
        Self {}
    }
}

impl HostnameProvider for MockFailedHostnameProvider {
    fn get(&self) -> (r: Result<String, String>)
        ensures
            r matches Err(m) && m@ == "mock error"@,
    {
        Err(String::from_str("mock error"))
    }
}

/// What the health endpoint reports.
#[derive(Debug, PartialEq)]
pub struct HealthResponse {
    pub healthy: bool,
    pub timestamp: u64,
    pub hostname: String,
    pub message: String,
}

/// The report is healthy exactly when both readings succeeded: a clock
/// reading at or after the epoch, and a hostname. A failed clock reading is
/// reported as timestamp 0, a failed hostname as "unknown", and the error
/// messages are joined with ";", clock first.
pub fn check_health(now: Timestamp, hostname: Result<String, String>) -> (r: HealthResponse)
    ensures
        r.healthy == (now.seconds >= 0 && hostname matches Ok(_)),
        r.timestamp == (if now.seconds >= 0 {
            now.seconds as u64
        } else {
            0u64
        }),
        hostname matches Ok(h) ==> r.hostname@ == h@,
        hostname matches Err(_) ==> r.hostname@ == "unknown"@,
        now.seconds >= 0 ==> (hostname matches Ok(_) ==> r.message@ == "ok"@),
        now.seconds < 0 ==> (hostname matches Ok(_) ==> r.message@
            == "second time provided was later than self"@),
        now.seconds >= 0 ==> (hostname matches Err(e) ==> r.message@ == e@),
        now.seconds < 0 ==> (hostname matches Err(e) ==> r.message@
            == "second time provided was later than self"@ + ";"@ + e@),
{
    let time_ok: bool = now.seconds >= 0;
    let timestamp: u64 = if time_ok {
        now.seconds as u64
    } else {
        0
    };
    match hostname {
        Ok(name) => {
            if time_ok {
                HealthResponse {
                    healthy: true,
                    timestamp,
                    hostname: name,
                    message: String::from_str("ok"),
                }
            } else {
                HealthResponse {
                    healthy: false,
                    timestamp,
                    hostname: name,
                    message: String::from_str("second time provided was later than self"),
                }
            }
        },
        Err(error) => {
            let unknown = String::from_str("unknown");
            if time_ok {
                HealthResponse {
                    healthy: false,
                    timestamp,
                    hostname: unknown,
                    message: error,
                }
            } else {
                let message = String::from_str("second time provided was later than self").concat(
                    ";",
                ).concat(error.as_str());
                HealthResponse { healthy: false, timestamp, hostname: unknown, message }
            }
        },
    }
}

} // verus!
