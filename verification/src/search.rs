//! Discovery: the search request, and the bookkeeping of a session that
//! collects the devices which answer it.
//!
//! A session is told of each datagram that arrives and of the time that has
//! passed, and says when its search is over. Sending the request, receiving
//! and waiting are left to the caller.

use vstd::prelude::*;
use vstd::utf8::decode_utf8;
use vstd::utf8::valid_utf8;
use std::time::Duration;
use crate::bulb::complete;
use crate::bulb::describes;
use crate::bulb::header_map;
use crate::bulb::Bulb;
use crate::connection::as_nanos;
use crate::connection::nanos_of;
use crate::text::chars_of;
use crate::text::same_chars;
use crate::text::utf8_text;

verus! {

/// The group address and port to which the search request is sent.
pub const MULTICAST_ADDR: &'static str = "239.255.255.250:1982";

/// The search request.
pub const SEARCH_MESSAGE: &'static str = "M-SEARCH * HTTP/1.1\r\n\
\n                    HOST: 239.255.255.250:1982\r\n\
\n                    MAN: \"ssdp:discover\"\r\n\
\n                    ST: wifi_bulb";

/// The interval between two looks at the stopping rule of a search, in
/// milliseconds.
pub const POLL_INTERVAL_MILLIS: u64 = 300;

/// When a search is over.
pub enum BulbSearcher {
    /// When the given time has passed.
    UntilDuration(Duration),
    /// When that many devices have been found.
    UntilBulbCount(usize),
    /// When the device with this identifier has been found.
    UntilBulbId(String),
    /// When the devices with these identifiers have all been found.
    UntilBulbIds(Vec<String>),
}

/// Whether a search that is bounded by time is over: the time that has
/// passed has reached its bound. Both are in nanoseconds.
pub fn time_is_up(elapsed_nanos: u128, limit_nanos: u128) -> (over: bool)
    ensures
        over == (elapsed_nanos >= limit_nanos),
{
    elapsed_nanos >= limit_nanos
}

/// Whether a wait for one datagram is to be cut to the bound of the search
/// rather than last a whole poll interval: the bound is shorter, and is not
/// zero, which a socket does not take for a wait. Both are in nanoseconds.
pub fn bound_cuts_wait(limit_nanos: u128, poll_nanos: u128) -> (cut: bool)
    ensures
        cut == (0 < limit_nanos < poll_nanos),
{
    0 < limit_nanos && limit_nanos < poll_nanos
}

/// How long a search waits for one datagram before it looks at its stopping
/// rule again, where `poll` is the interval between two looks: a search
/// that is bounded by a shorter time waits that time, unless it is zero.
pub open spec fn wait_of(policy: BulbSearcher, poll: Duration) -> Duration {
    match policy {
        BulbSearcher::UntilDuration(limit) => if 0 < nanos_of(limit) < nanos_of(poll) {
            limit
        } else {
            poll
        },
        _ => poll,
    }
}

/// Whether a search for a number of devices that began below that number
/// stands as it should: it is over exactly when it holds that number, and
/// holds fewer until then. Of any other search nothing is asked.
pub open spec fn counted(
    policy: BulbSearcher,
    start: Seq<Bulb>,
    over: bool,
    found: Seq<Bulb>,
) -> bool {
    match policy {
        BulbSearcher::UntilBulbCount(count) => start.len() < count ==> if over {
            found.len() == count
        } else {
            found.len() < count
        },
        _ => true,
    }
}

/// The identifiers of a list of devices.
pub open spec fn ids(found: Seq<Bulb>) -> Seq<Seq<char>> {
    found.map_values(|bulb: Bulb| bulb.id@)
}

/// Whether a search is over, given what was found and the time that has
/// passed since it began.
pub open spec fn satisfied(policy: BulbSearcher, found: Seq<Bulb>, elapsed: Duration) -> bool {
    match policy {
        BulbSearcher::UntilDuration(limit) => nanos_of(elapsed) >= nanos_of(limit),
        BulbSearcher::UntilBulbCount(count) => found.len() >= count,
        BulbSearcher::UntilBulbId(id) => ids(found).contains(id@),
        BulbSearcher::UntilBulbIds(wanted) => forall|i: int|
            0 <= i < wanted@.len() ==> ids(found).contains(#[trigger] wanted@[i]@),
    }
}

/// The header block of a datagram that announces a device which is not yet
/// among `found`; nothing for any other datagram: one that is no UTF-8, one
/// that lacks a field of a descriptor, and one of a device that was found
/// before.
pub open spec fn news(found: Seq<Bulb>, datagram: Seq<u8>) -> Option<Map<Seq<char>, Seq<char>>> {
    if valid_utf8(datagram) && complete(header_map(decode_utf8(datagram))) && !ids(found).contains(
        header_map(decode_utf8(datagram))["id"@],
    ) {
        Some(header_map(decode_utf8(datagram)))
    } else {
        None
    }
}

/// How a datagram changes the list of devices found: news is added at the
/// end, as the descriptor that it announces; anything else changes nothing.
pub open spec fn ingested(before: Seq<Bulb>, datagram: Seq<u8>, after: Seq<Bulb>) -> bool {
    match news(before, datagram) {
        Some(map) => after.len() == before.len() + 1 && after.drop_last() == before && describes(
            map,
            after.last(),
        ),
        None => after == before,
    }
}

/// How a run of datagrams changes the list of devices found: each is taken
/// in after the ones before it.
pub open spec fn drained(before: Seq<Bulb>, datagrams: Seq<Seq<u8>>, after: Seq<Bulb>) -> bool
    decreases datagrams.len(),
{
    if datagrams.len() == 0 {
        after == before
    } else {
        exists|middle: Seq<Bulb>|
            drained(before, datagrams.drop_last(), middle) && #[trigger] ingested(
                middle,
                datagrams.last(),
                after,
            )
    }
}

/// The contents of a list of datagrams.
pub open spec fn contents(datagrams: Seq<Vec<u8>>) -> Seq<Seq<u8>> {
    datagrams.map_values(|datagram: Vec<u8>| datagram@)
}

/// Whether `found` holds a device with the identifier `id`.
pub fn holds_id(found: &Vec<Bulb>, id: &[char]) -> (held: bool)
    ensures
        held == ids(found@).contains(id@),
{
    let mut i: usize = 0;
    while i < found.len()
        invariant
            i <= found@.len(),
            forall|k: int| 0 <= k < i ==> ids(found@)[k] != id@,
        decreases found.len() - i,
    {
        let candidate = chars_of(found[i].id.as_str());
        if same_chars(candidate.as_slice(), id) {
            assert(ids(found@)[i as int] == id@);
            return true;
        }
        i += 1;
    }
    false
}

/// A search in progress: its stopping rule, and the devices found so far,
/// in the order in which they were first heard of.
pub struct Discovery {
    pub policy: BulbSearcher,
    pub found: Vec<Bulb>,
}

impl BulbSearcher {
    /// How long a caller should wait for one datagram: a search that is
    /// bounded by time must not wait longer than its bound.
    pub fn read_timeout(&self) -> (timeout: Option<Duration>)
        ensures
            timeout == (match *self {
                BulbSearcher::UntilDuration(limit) => Some(limit),
                _ => None,
            }),
    {
        match self {
            BulbSearcher::UntilDuration(limit) => Some(*limit),
            _ => None,
        }
    }

    /// How long to wait for one datagram before the stopping rule is looked
    /// at again, where `poll` is the interval between two looks.
    pub fn receive_wait(&self, poll: Duration) -> (wait: Duration)
        ensures
            wait == wait_of(*self, poll),
    {
        match self {
            BulbSearcher::UntilDuration(limit) => if bound_cuts_wait(
                as_nanos(limit),
                as_nanos(&poll),
            ) {
                *limit
            } else {
                poll
            },
            _ => poll,
        }
    }

    /// Whether the search is over.
    pub fn is_satisfied(&self, found: &Vec<Bulb>, elapsed: &Duration) -> (over: bool)
        ensures
            over == satisfied(*self, found@, *elapsed),
    {
        match self {
            BulbSearcher::UntilDuration(limit) => time_is_up(as_nanos(elapsed), as_nanos(limit)),
            BulbSearcher::UntilBulbCount(count) => found.len() >= *count,
            BulbSearcher::UntilBulbId(id) => {
                let wanted = chars_of(id.as_str());
                holds_id(found, wanted.as_slice())
            },
            BulbSearcher::UntilBulbIds(wanted) => {
                let mut i: usize = 0;
                while i < wanted.len()
                    invariant
                        i <= wanted@.len(),
                        *self matches BulbSearcher::UntilBulbIds(all) && all == *wanted,
                        forall|k: int|
                            0 <= k < i ==> ids(found@).contains(#[trigger] wanted@[k]@),
                    decreases wanted.len() - i,
                {
                    let id = chars_of(wanted[i].as_str());
                    if !holds_id(found, id.as_slice()) {
                        return false;
                    }
                    i += 1;
                }
                true
            },
        }
    }
}

impl Discovery {
    /// A search that has found nothing yet.
    pub fn new(policy: BulbSearcher) -> (session: Discovery)
        ensures
            session.policy == policy,
            session.found@.len() == 0,
            session.wf(),
    {
        Discovery { policy, found: Vec::new() }
    }

    /// No device is listed twice.
    pub open spec fn wf(&self) -> bool {
        ids(self.found@).no_duplicates()
    }

    /// Takes in one datagram. The first announcement of a device adds its
    /// descriptor; a later one of the same device is dropped, even where it
    /// differs; a datagram that announces no device is passed over.
    pub fn ingest(&mut self, datagram: &[u8]) -> (added: bool)
        ensures
            old(self).wf() ==> final(self).wf(),
            final(self).policy == old(self).policy,
            ingested(old(self).found@, datagram@, final(self).found@),
            added == news(old(self).found@, datagram@).is_some(),
    {
        let text = match utf8_text(datagram) {
            Some(text) => text,
            None => {
                return false;
            },
        };
        proof {
            vstd::utf8::encode_utf8_decode_utf8(text@);
        }
        let bulb = match Bulb::parse(text) {
            Some(bulb) => bulb,
            None => {
                return false;
            },
        };
        let id = chars_of(bulb.id.as_str());
        if holds_id(&self.found, id.as_slice()) {
            return false;
        }
        let ghost before = ids(self.found@);
        self.found.push(bulb);
        assert(ids(self.found@) =~= before.push(id@));
        assert(self.found@.drop_last() =~= old(self).found@);
        true
    }

    /// Takes in all datagrams that have arrived since the last time, in
    /// their order, and says how many devices they added.
    pub fn drain(&mut self, datagrams: &Vec<Vec<u8>>) -> (added: usize)
        ensures
            old(self).wf() ==> final(self).wf(),
            final(self).policy == old(self).policy,
            drained(old(self).found@, contents(datagrams@), final(self).found@),
            final(self).found@.len() == old(self).found@.len() + added,
    {
        let mut added: usize = 0;
        let mut i: usize = 0;
        while i < datagrams.len()
            invariant
                i <= datagrams@.len(),
                added <= i,
                old(self).wf() ==> self.wf(),
                self.policy == old(self).policy,
                drained(old(self).found@, contents(datagrams@).subrange(0, i as int), self.found@),
                self.found@.len() == old(self).found@.len() + added,
            decreases datagrams.len() - i,
        {
            let ghost middle = self.found@;
            let ghost taken = contents(datagrams@).subrange(0, i + 1);
            assert(taken.drop_last() =~= contents(datagrams@).subrange(0, i as int));
            assert(taken.last() == datagrams@[i as int]@);
            assert(drained(old(self).found@, taken.drop_last(), middle));
            if self.ingest(datagrams[i].as_slice()) {
                added += 1;
            }
            assert(ingested(middle, taken.last(), self.found@));
            i += 1;
        }
        assert(contents(datagrams@).subrange(0, i as int) =~= contents(datagrams@));
        added
    }

    /// Whether the search is over after `elapsed` has passed.
    pub fn finished(&self, elapsed: &Duration) -> (over: bool)
        ensures
            over == satisfied(self.policy, self.found@, *elapsed),
    {
        self.policy.is_satisfied(&self.found, elapsed)
    }

    /// One round of a search: takes in what was received, if anything was,
    /// and says whether the search is over.
    pub fn advance(&mut self, received: Option<&[u8]>, elapsed: &Duration) -> (over: bool)
        ensures
            old(self).wf() ==> final(self).wf(),
            final(self).policy == old(self).policy,
            match received {
                Some(datagram) => ingested(old(self).found@, datagram@, final(self).found@),
                None => final(self).found@ == old(self).found@,
            },
            over == satisfied(final(self).policy, final(self).found@, *elapsed),
    {
        if let Some(datagram) = received {
            self.ingest(datagram);
        }
        self.finished(elapsed)
    }

    /// Runs the rounds of a search over the datagrams that were received,
    /// in their order: each round takes in one datagram and then looks at
    /// the stopping rule, and the first round that ends the search is the
    /// last. Returns how many rounds were run, and whether the search is
    /// over.
    ///
    /// A search for a number of devices that starts below that number and
    /// ends here, ends with exactly that number.
    pub fn search_through(&mut self, datagrams: &Vec<Vec<u8>>, elapsed: &Duration) -> (run: (
        usize,
        bool,
    ))
        ensures
            old(self).wf() ==> final(self).wf(),
            final(self).policy == old(self).policy,
            run.0 <= datagrams@.len(),
            drained(
                old(self).found@,
                contents(datagrams@).subrange(0, run.0 as int),
                final(self).found@,
            ),
            run.1 == satisfied(final(self).policy, final(self).found@, *elapsed),
            !run.1 ==> run.0 == datagrams@.len(),
            counted(old(self).policy, old(self).found@, run.1, final(self).found@),
    {
        let mut i: usize = 0;
        let mut over: bool = self.finished(elapsed);
        assert(contents(datagrams@).subrange(0, 0) =~= Seq::<Seq<u8>>::empty());
        while i < datagrams.len() && (i == 0 || !over)
            invariant
                i <= datagrams@.len(),
                old(self).wf() ==> self.wf(),
                self.policy == old(self).policy,
                drained(old(self).found@, contents(datagrams@).subrange(0, i as int), self.found@),
                over == satisfied(self.policy, self.found@, *elapsed),
                counted(old(self).policy, old(self).found@, over, self.found@),
            decreases datagrams.len() - i,
        {
            let ghost middle = self.found@;
            let ghost taken = contents(datagrams@).subrange(0, i + 1);
            assert(taken.drop_last() =~= contents(datagrams@).subrange(0, i as int));
            assert(taken.last() == datagrams@[i as int]@);
            over = self.advance(Some(datagrams[i].as_slice()), elapsed);
            assert(ingested(middle, taken.last(), self.found@));
            i += 1;
        }
        (i, over)
    }

    /// Ends the search and hands out what was found.
    pub fn into_found(self) -> (found: Vec<Bulb>)
        ensures
            found == self.found,
    {
        self.found
    }
}

/// Of two announcements with one identifier the first counts: once a
/// datagram was taken in, taking in a datagram with the same identifier
/// changes nothing, and the list holds that identifier exactly once.
pub proof fn lemma_repeated_announcement(
    start: Seq<Bulb>,
    first: Seq<u8>,
    middle: Seq<Bulb>,
    second: Seq<u8>,
    end: Seq<Bulb>,
)
    requires
        ids(start).no_duplicates(),
        ingested(start, first, middle),
        ingested(middle, second, end),
        valid_utf8(first) && complete(header_map(decode_utf8(first))),
        valid_utf8(second) && complete(header_map(decode_utf8(second))),
        header_map(decode_utf8(first))["id"@] == header_map(decode_utf8(second))["id"@],
    ensures
        end == middle,
        ids(end).no_duplicates(),
        ids(end).contains(header_map(decode_utf8(first))["id"@]),
{
    let id = header_map(decode_utf8(first))["id"@];
    lemma_ingested_keeps_distinct(start, first, middle);
    if news(start, first) is Some {
        assert(ids(middle).last() == id);
        assert(ids(middle)[middle.len() - 1] == id);
    }
    assert(ids(middle).contains(id));
}

/// The same announcement twice is one device: taking in a datagram a second
/// time changes nothing, and a device that it announces is listed once.
pub proof fn lemma_same_datagram_twice(
    start: Seq<Bulb>,
    datagram: Seq<u8>,
    middle: Seq<Bulb>,
    end: Seq<Bulb>,
)
    requires
        ids(start).no_duplicates(),
        ingested(start, datagram, middle),
        ingested(middle, datagram, end),
    ensures
        end == middle,
        ids(end).no_duplicates(),
        valid_utf8(datagram) && complete(header_map(decode_utf8(datagram))) ==> ids(end).contains(
            header_map(decode_utf8(datagram))["id"@],
        ),
{
    lemma_ingested_keeps_distinct(start, datagram, middle);
    if valid_utf8(datagram) && complete(header_map(decode_utf8(datagram))) {
        lemma_repeated_announcement(start, datagram, middle, datagram, end);
    }
}

/// Taking in a datagram keeps a list free of duplicates so.
pub proof fn lemma_ingested_keeps_distinct(before: Seq<Bulb>, datagram: Seq<u8>, after: Seq<Bulb>)
    requires
        ids(before).no_duplicates(),
        ingested(before, datagram, after),
    ensures
        ids(after).no_duplicates(),
{
    if news(before, datagram) is Some {
        let id = header_map(decode_utf8(datagram))["id"@];
        assert(ids(after) =~= ids(before).push(id)) by {
            assert(ids(after).drop_last() =~= ids(after.drop_last()));
        }
    }
}

/// A search that is bounded by time is over once that time has passed,
/// whatever was found, and be it nothing.
pub proof fn lemma_time_ends_search(limit: Duration, found: Seq<Bulb>, elapsed: Duration)
    requires
        nanos_of(elapsed) >= nanos_of(limit),
    ensures
        satisfied(BulbSearcher::UntilDuration(limit), found, elapsed),
        satisfied(BulbSearcher::UntilDuration(limit), Seq::<Bulb>::empty(), elapsed),
{
}

/// A search for a number of devices ends with exactly that number: if it
/// was not over before a datagram was taken in and is over afterwards, the
/// list holds as many devices as were asked for.
pub proof fn lemma_count_is_met_exactly(
    count: usize,
    before: Seq<Bulb>,
    datagram: Seq<u8>,
    after: Seq<Bulb>,
    elapsed: Duration,
)
    requires
        ingested(before, datagram, after),
        !satisfied(BulbSearcher::UntilBulbCount(count), before, elapsed),
        satisfied(BulbSearcher::UntilBulbCount(count), after, elapsed),
    ensures
        after.len() == count,
{
}

} // verus!
