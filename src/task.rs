use vstd::prelude::*;
use crate::classifier::{classify, recovery_of, FetchOutcome, Recovery};
use crate::text::{append_str, chars_of, matches_at, seq_starts_with, string_of_range};

verus! {

/// The secure scheme that a protocol downgrade replaces.
pub const SECURE_SCHEME: &'static str = "https://";

/// The plaintext scheme that a protocol downgrade puts in its place.
pub const PLAIN_SCHEME: &'static str = "http://";

/// The URL with its secure scheme replaced by the plaintext one.
pub open spec fn downgraded_url(url: Seq<char>) -> Seq<char> {
    PLAIN_SCHEME@ + url.subrange(SECURE_SCHEME@.len() as int, url.len() as int)
}

/// Whether a URL can be downgraded: it uses the secure scheme.
pub fn is_secure_url(url: &str) -> (r: bool)
    ensures
        r == seq_starts_with(url@, SECURE_SCHEME@),
{
    crate::text::starts_with_text(url, SECURE_SCHEME)
}

/// The URL with its secure scheme replaced by the plaintext one.
pub fn downgrade_url(url: &str) -> (r: String)
    requires
        seq_starts_with(url@, SECURE_SCHEME@),
    ensures
        r@ == downgraded_url(url@),
{
    let v = chars_of(url);
    let p = chars_of(SECURE_SCHEME);
    let rest = string_of_range(&v, p.len(), v.len());
    let mut r = String::new();
    append_str(&mut r, PLAIN_SCHEME);
    append_str(&mut r, rest.as_str());
    proof {
        assert(PLAIN_SCHEME@ =~= Seq::<char>::empty() + PLAIN_SCHEME@);
    }
    r
}

/// Where an item stands in its trip through the orchestrator.
#[derive(PartialEq, Eq, Structural, Clone, Copy, Debug)]
pub enum Phase {
    /// Waiting for the store's pre-checks.
    Checking,
    /// Waiting for a session from the pool.
    AwaitSession,
    /// A fetch is in flight; `downgraded` says whether it is the plaintext retry.
    Fetching { downgraded: bool },
    /// The result is being written to the store.
    Persisting,
    /// The rate-limiting delay is running.
    Delaying,
    Done,
}

/// What the driver reports back to the item.
#[derive(PartialEq, Eq, Structural, Clone, Copy, Debug)]
pub enum Event {
    /// The pre-checks: the target is quarantined, an equivalent record is
    /// already stored, or the stage's watermark says to stop.
    Checked { quarantined: bool, already_done: bool, cancelled: bool },
    SessionGranted,
    /// The bounded wait for a session ran out.
    SessionTimedOut,
    Fetched(FetchOutcome),
    Persisted,
    DelayElapsed,
}

/// What the driver is to do next for the item.
#[derive(PartialEq, Eq, Structural, Clone, Copy, Debug)]
pub enum Action {
    AcquireSession,
    /// Fetch the item's current URL with the leased session.
    Fetch,
    /// Write the fetched markup and mark the source record processed.
    Persist,
    /// Sleep for the rate-limiting delay.
    Delay,
    /// Return the session to the pool; the item is done.
    Release,
    /// Cycle the session; the item is done.
    Replace,
    /// Write a quarantine entry for the target, then release the session; the
    /// item is done.
    QuarantineAndRelease,
    /// The item is done and holds no session.
    Finish,
    /// The event does not apply in this phase; nothing changes.
    Ignore,
}

/// One step of an item: from its phase, current URL and an event, to its
/// next phase, next URL and the action to perform.
pub open spec fn step(phase: Phase, url: Seq<char>, ev: Event) -> (Phase, Seq<char>, Action) {
    match (phase, ev) {
        (Phase::Checking, Event::Checked { quarantined, already_done, cancelled }) => {
            if quarantined || already_done || cancelled {
                (Phase::Done, url, Action::Finish)
            } else {
                (Phase::AwaitSession, url, Action::AcquireSession)
            }
        },
        (Phase::AwaitSession, Event::SessionGranted) => (
            Phase::Fetching { downgraded: false },
            url,
            Action::Fetch,
        ),
        (Phase::AwaitSession, Event::SessionTimedOut) => (Phase::Done, url, Action::Finish),
        (Phase::Fetching { downgraded }, Event::Fetched(outcome)) => {
            match recovery_of(outcome, downgraded) {
                Recovery::Persist => (Phase::Persisting, url, Action::Persist),
                Recovery::Quarantine => (Phase::Done, url, Action::QuarantineAndRelease),
                Recovery::Downgrade => if seq_starts_with(url, SECURE_SCHEME@) {
                    (Phase::Fetching { downgraded: true }, downgraded_url(url), Action::Fetch)
                } else {
                    (Phase::Done, url, Action::Release)
                },
                Recovery::Release => (Phase::Done, url, Action::Release),
                Recovery::Replace => (Phase::Done, url, Action::Replace),
            }
        },
        (Phase::Persisting, Event::Persisted) => (Phase::Delaying, url, Action::Delay),
        (Phase::Delaying, Event::DelayElapsed) => (Phase::Done, url, Action::Release),
        _ => (phase, url, Action::Ignore),
    }
}

/// One work item in the orchestrator: its target and the URL it fetches now.
pub struct ItemTask {
    phase: Phase,
    target: String,
    url: String,
}

impl ItemTask {
    pub closed spec fn spec_phase(&self) -> Phase {
        self.phase
    }

    pub closed spec fn spec_target(&self) -> Seq<char> {
        self.target@
    }

    pub closed spec fn spec_url(&self) -> Seq<char> {
        self.url@
    }

    /// A fresh item for `target`, waiting for its pre-checks.
    pub fn new(target: String) -> (r: ItemTask)
        ensures
            r.spec_phase() == Phase::Checking,
            r.spec_target() == target@,
            r.spec_url() == target@,
    {
        let url = target.clone();
        ItemTask { phase: Phase::Checking, target, url }
    }

    pub fn phase(&self) -> (r: Phase)
        ensures
            r == self.spec_phase(),
    {
        self.phase
    }

    /// The target the item was made for; a quarantine entry names it.
    pub fn target(&self) -> (r: &str)
        ensures
            r@ == self.spec_target(),
    {
        self.target.as_str()
    }

    /// The URL the next fetch goes to.
    pub fn url(&self) -> (r: &str)
        ensures
            r@ == self.spec_url(),
    {
        self.url.as_str()
    }

    /// Takes one event and says what to do next.
    pub fn on_event(&mut self, ev: Event) -> (a: Action)
        ensures
            (final(self).spec_phase(), final(self).spec_url(), a) == step(
                old(self).spec_phase(),
                old(self).spec_url(),
                ev,
            ),
            final(self).spec_target() == old(self).spec_target(),
    {
        match (self.phase, ev) {
            (Phase::Checking, Event::Checked { quarantined, already_done, cancelled }) => {
                if quarantined || already_done || cancelled {
                    self.phase = Phase::Done;
                    Action::Finish
                } else {
                    self.phase = Phase::AwaitSession;
                    Action::AcquireSession
                }
            },
            (Phase::AwaitSession, Event::SessionGranted) => {
                self.phase = Phase::Fetching { downgraded: false };
                Action::Fetch
            },
            (Phase::AwaitSession, Event::SessionTimedOut) => {
                self.phase = Phase::Done;
                Action::Finish
            },
            (Phase::Fetching { downgraded }, Event::Fetched(outcome)) => {
                match classify(outcome, downgraded) {
                    Recovery::Persist => {
                        self.phase = Phase::Persisting;
                        Action::Persist
                    },
                    Recovery::Quarantine => {
                        self.phase = Phase::Done;
                        Action::QuarantineAndRelease
                    },
                    Recovery::Downgrade => {
                        if is_secure_url(self.url.as_str()) {
                            let next = downgrade_url(self.url.as_str());
                            self.url = next;
                            self.phase = Phase::Fetching { downgraded: true };
                            Action::Fetch
                        } else {
                            self.phase = Phase::Done;
                            Action::Release
                        }
                    },
                    Recovery::Release => {
                        self.phase = Phase::Done;
                        Action::Release
                    },
                    Recovery::Replace => {
                        self.phase = Phase::Done;
                        Action::Replace
                    },
                }
            },
            (Phase::Persisting, Event::Persisted) => {
                self.phase = Phase::Delaying;
                Action::Delay
            },
            (Phase::Delaying, Event::DelayElapsed) => {
                self.phase = Phase::Done;
                Action::Release
            },
            _ => Action::Ignore,
        }
    }
}


/// How many fetches an item issues while it takes `evs` in turn.
pub open spec fn fetch_count(phase: Phase, url: Seq<char>, evs: Seq<Event>) -> nat
    decreases evs.len(),
{
    if evs.len() == 0 {
        0
    } else {
        let (p, u, a) = step(phase, url, evs[0]);
        (if a == Action::Fetch { 1nat } else { 0nat }) + fetch_count(p, u, evs.drop_first())
    }
}

/// How many downgrade retries an item issues while it takes `evs` in turn: a
/// fetch issued in answer to the outcome of an earlier fetch.
pub open spec fn retry_count(phase: Phase, url: Seq<char>, evs: Seq<Event>) -> nat
    decreases evs.len(),
{
    if evs.len() == 0 {
        0
    } else {
        let (p, u, a) = step(phase, url, evs[0]);
        (if phase is Fetching && a == Action::Fetch { 1nat } else { 0nat }) + retry_count(
            p,
            u,
            evs.drop_first(),
        )
    }
}

/// How many retries are still open to an item in `phase`.
pub open spec fn retry_budget(phase: Phase) -> nat {
    match phase {
        Phase::Checking => 1,
        Phase::AwaitSession => 1,
        Phase::Fetching { downgraded } => if downgraded { 0 } else { 1 },
        _ => 0,
    }
}

/// How many fetches are still open to an item in `phase`.
pub open spec fn fetch_budget(phase: Phase) -> nat {
    match phase {
        Phase::Checking => 2,
        Phase::AwaitSession => 2,
        Phase::Fetching { downgraded } => if downgraded { 0 } else { 1 },
        _ => 0,
    }
}

proof fn lemma_retry_within_budget(phase: Phase, url: Seq<char>, evs: Seq<Event>)
    ensures
        retry_count(phase, url, evs) <= retry_budget(phase),
        fetch_count(phase, url, evs) <= fetch_budget(phase),
    decreases evs.len(),
{
    if evs.len() > 0 {
        let (p, u, a) = step(phase, url, evs[0]);
        lemma_retry_within_budget(p, u, evs.drop_first());
    }
}

/// Whatever events reach it, an item issues at most one protocol-downgrade
/// retry, and at most two fetches in all.
pub proof fn lemma_at_most_one_downgrade(target: Seq<char>, evs: Seq<Event>)
    ensures
        retry_count(Phase::Checking, target, evs) <= 1,
        fetch_count(Phase::Checking, target, evs) <= 2,
{
    lemma_retry_within_budget(Phase::Checking, target, evs);
}

/// An item whose target the pre-checks find quarantined is never fetched,
/// whatever events follow.
pub proof fn lemma_quarantined_never_fetched(
    target: Seq<char>,
    already_done: bool,
    cancelled: bool,
    evs: Seq<Event>,
)
    ensures
        fetch_count(
            Phase::Checking,
            target,
            seq![Event::Checked { quarantined: true, already_done, cancelled }] + evs,
        ) == 0,
{
    let all = seq![Event::Checked { quarantined: true, already_done, cancelled }] + evs;
    assert(all.drop_first() =~= evs);
    lemma_retry_within_budget(Phase::Done, target, evs);
}

} // verus!
