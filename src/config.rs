use vstd::prelude::*;

verus! {

/// The control port of the session in slot 0; slot `i` uses the next ports in turn.
pub const BASE_PORT: u16 = 4444;

/// The fixed viewport of every session.
pub const VIEWPORT_WIDTH: u32 = 1920;

pub const VIEWPORT_HEIGHT: u32 = 1080;

/// The connect, navigate and script timeout of every session, in seconds.
pub const TIMEOUT_SECS: u64 = 30;

/// The fixed delay between two polls for a free session, in milliseconds.
pub const SESSION_POLL_DELAY_MS: u64 = 5000;

/// The control port of the session in slot `index`, when it fits in a port
/// number.
pub fn session_port(index: usize) -> (r: Option<u16>)
    ensures
        match r {
            Some(p) => p == BASE_PORT + index,
            None => BASE_PORT + index > u16::MAX,
        },
{
    if index <= (u16::MAX - BASE_PORT) as usize {
        Some(BASE_PORT + index as u16)
    } else {
        None
    }
}

/// The browser's command-line switches for a headless or a visible session.
pub fn browser_args(headless: bool) -> (r: Vec<&'static str>)
    ensures
        headless ==> r@ == seq!["--no-sandbox", "--headless", "--disable-gpu", "--disable-dev-shm-usage"],
        !headless ==> r@ == seq![
            "--no-sandbox",
            "--disable-gpu",
            "--disable-dev-shm-usage",
            "--display=192.168.1.2:0",
        ],
{
    if headless {
        vec!["--no-sandbox", "--headless", "--disable-gpu", "--disable-dev-shm-usage"]
    } else {
        vec!["--no-sandbox", "--disable-gpu", "--disable-dev-shm-usage", "--display=192.168.1.2:0"]
    }
}

/// The range of the rate-limiting delay after a stored result, in
/// milliseconds, both ends included.
#[derive(Clone, Copy, Debug)]
pub struct DelayRange {
    pub min_ms: u64,
    pub max_ms: u64,
}

/// Relies on rand's `thread_rng` and `Rng::gen_range` over an inclusive
/// range: a value between the two ends. It panics on an empty range, which
/// `requires` leaves out.
#[verifier::external_body]
fn random_between(lo: u64, hi: u64) -> (r: u64)
    requires
        lo <= hi,
    ensures
        lo <= r <= hi,
{
    rand::Rng::gen_range(&mut rand::thread_rng(), lo..=hi)
}

/// A rate-limiting delay drawn from `range`; its lower end when the range is
/// empty or a single value.
pub fn pick_delay_ms(range: DelayRange) -> (r: u64)
    ensures
        range.min_ms < range.max_ms ==> range.min_ms <= r <= range.max_ms,
        range.min_ms >= range.max_ms ==> r == range.min_ms,
{
    if range.min_ms < range.max_ms {
        random_between(range.min_ms, range.max_ms)
    } else {
        range.min_ms
    }
}

} // verus!
