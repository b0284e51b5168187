//! The weather report that was fetched last, and the decision when to
//! fetch the next one.
//!
//! The cache never fetches by itself. It says whether a fetch is due; its
//! driver fetches and hands in what came. A fetch that failed, or brought
//! nothing that reads as a report, leaves the cache as it was.

use vstd::prelude::*;
use vstd::string::*;
use crate::schedule::Instant;
use crate::weather::{parse_metar_data, reads_as_report, report_section};

verus! {

/// A report together with the instant at which it was fetched.
#[derive(Debug)]
pub struct Snapshot {
    report: String,
    fetched_at: Instant,
}

/// The report that was fetched last, if any was yet.
#[derive(Debug)]
pub struct ObservationCache {
    last: Option<Snapshot>,
}

/// What a cache holds: the text of a report and the instant of its fetch.
pub type Held = Option<(Seq<char>, Instant)>;

/// Whether a fetch is due at `now`: nothing is held, or what is held was
/// fetched `ttl_secs` seconds ago or longer.
pub open spec fn due(held: Held, now: Instant, ttl_secs: u32) -> bool {
    match held {
        None => true,
        Some((_, fetched_at)) => now.as_nanos() - fetched_at.as_nanos() >= ttl_secs
            * 1_000_000_000,
    }
}

/// What is held once a report has been looked for in what a fetch brought:
/// the report with the instant of the fetch if there is one, and what was
/// held before if the fetch failed or brought no report.
pub open spec fn stored(held: Held, now: Instant, fetched: Option<Seq<char>>) -> Held {
    match fetched {
        None => held,
        Some(data) => match report_section(data) {
            Some((from, to)) => if reads_as_report(data.subrange(from, to)) {
                Some((data.subrange(from, to), now))
            } else {
                held
            },
            None => held,
        },
    }
}

/// What is held after a round of the cache at `now`: where no fetch is due,
/// what was held before, whatever was handed in.
pub open spec fn refreshed(
    held: Held,
    now: Instant,
    ttl_secs: u32,
    fetched: Option<Seq<char>>,
) -> Held {
    if due(held, now, ttl_secs) {
        stored(held, now, fetched)
    } else {
        held
    }
}

/// What was fetched, as text.
pub open spec fn fetched_text(fetched: Option<&str>) -> Option<Seq<char>> {
    match fetched {
        Some(data) => Some(data@),
        None => None,
    }
}

impl Snapshot {
    pub closed spec fn view(&self) -> (Seq<char>, Instant) {
        (self.report@, self.fetched_at)
    }

    /// The text of the report.
    pub fn report(&self) -> (r: &str)
        ensures
            r@ == self@.0,
    {
        self.report.as_str()
    }

    pub fn fetched_at(&self) -> (r: Instant)
        ensures
            r == self@.1,
    {
        self.fetched_at
    }
}

impl ObservationCache {
    pub closed spec fn view(&self) -> Held {
        match self.last {
            Some(snapshot) => Some(snapshot@),
            None => None,
        }
    }

    /// A cache that holds nothing yet.
    pub fn new() -> (cache: ObservationCache)
        ensures
            cache@ is None,
    {
        ObservationCache { last: None }
    }

    /// The snapshot that is held, if any.
    pub fn current(&self) -> (r: Option<&Snapshot>)
        ensures
            r is Some <==> self@ is Some,
            r is Some ==> r->0@ == self@->0,
    {
        self.last.as_ref()
    }

    /// Whether a fetch is due at `now`.
    pub fn refresh_due(&self, now: Instant, ttl_secs: u32) -> (r: bool)
        ensures
            r == due(self@, now, ttl_secs),
    {
        match &self.last {
            None => true,
            Some(snapshot) => now.has_passed(&snapshot.fetched_at, ttl_secs),
        }
    }

    /// Takes in the outcome of a fetch at `now`: a report replaces what is
    /// held, and the lack of one changes nothing.
    pub fn store(&mut self, now: Instant, report: Option<&str>)
        ensures
            final(self)@ == match report {
                Some(text) => Some((text@, now)),
                None => old(self)@,
            },
    {
        match report {
            Some(text) => {
                self.last = Some(Snapshot { report: String::from_str(text), fetched_at: now });
            },
            None => {},
        }
    }

    /// One round of the cache at `now`. `fetched` is what the fetch brought
    /// that was made because one was due, and None where it failed. Where
    /// none was due the cache stays as it is.
    pub fn maybe_refresh(&mut self, now: Instant, ttl_secs: u32, fetched: Option<&str>)
        ensures
            final(self)@ == refreshed(old(self)@, now, ttl_secs, fetched_text(fetched)),
    {
        if self.refresh_due(now, ttl_secs) {
            match fetched {
                Some(data) => {
                    match parse_metar_data(data) {
                        Ok(report) => self.store(now, Some(report)),
                        Err(_) => {},
                    }
                },
                None => {},
            }
        }
    }
}

/// A fetch that failed, or brought nothing that reads as a report, leaves
/// what is held untouched; and whatever a fetch brings, a cache that holds
/// a report goes on holding one.
pub proof fn lemma_failure_keeps_snapshot(
    held: Held,
    now: Instant,
    ttl_secs: u32,
    fetched: Option<Seq<char>>,
)
    ensures
        refreshed(held, now, ttl_secs, None) == held,
        held is Some ==> refreshed(held, now, ttl_secs, fetched) is Some,
        refreshed(held, now, ttl_secs, fetched) != held ==> (refreshed(
            held,
            now,
            ttl_secs,
            fetched,
        ) matches Some((_, at)) && at == now),
{
}

/// After a fetch at `then` that brought a report, no fetch is due until
/// `ttl_secs` seconds have passed, and one is due from that instant on.
/// Until then the cache keeps what it holds, whatever is handed in.
pub proof fn lemma_fresh_until_ttl(
    report: Seq<char>,
    then: Instant,
    now: Instant,
    ttl_secs: u32,
    fetched: Option<Seq<char>>,
)
    ensures
        due(Some((report, then)), now, ttl_secs) <==> now.as_nanos() - then.as_nanos() >= ttl_secs
            * 1_000_000_000,
        now.as_nanos() - then.as_nanos() < ttl_secs * 1_000_000_000 ==> refreshed(
            Some((report, then)),
            now,
            ttl_secs,
            fetched,
        ) == Some((report, then)),
{
}

} // verus!
