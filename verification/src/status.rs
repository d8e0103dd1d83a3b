//! The crash-dump collection status reported by the native library, the total
//! mapping from its raw integer codes, and the polling rules used to wait for
//! collection to end.

use vstd::prelude::*;

verus! {

/// Raw code the native status query reports before collection has started.
pub const RAW_NOT_STARTED: u32 = 0;
/// Raw code for a collection that is currently gathering data.
pub const RAW_COLLECTING_DATA: u32 = 1;
/// Raw code for a collection that failed while gathering data.
pub const RAW_COLLECTING_DATA_FAILED: u32 = 2;
/// Raw code reported while the registered callbacks are being invoked.
pub const RAW_INVOKING_CALLBACK: u32 = 3;
/// Raw code for a finished collection; the largest known code.
pub const RAW_FINISHED: u32 = 4;

/// How long the waiting loop rests between two status polls, in milliseconds.
pub const POLL_INTERVAL_MS: u64 = 50;

/// Progress of the native library's crash-dump collection.
///
/// `Unknown` stands for every raw code outside the known range, so that a
/// newer native library can never drive this type out of its enumeration.
#[derive(Clone, Copy, Debug, PartialEq, Eq, Structural)]
pub enum Status {
    NotStarted,
    CollectingData,
    CollectingDataFailed,
    InvokingCallback,
    Finished,
    Unknown,
}

/// The status a raw code stands for; codes outside the known range all mean
/// `Unknown`.
pub open spec fn status_from_raw_spec(raw: u32) -> Status {
    if raw == RAW_NOT_STARTED {
        Status::NotStarted
    } else if raw == RAW_COLLECTING_DATA {
        Status::CollectingData
    } else if raw == RAW_COLLECTING_DATA_FAILED {
        Status::CollectingDataFailed
    } else if raw == RAW_INVOKING_CALLBACK {
        Status::InvokingCallback
    } else if raw == RAW_FINISHED {
        Status::Finished
    } else {
        Status::Unknown
    }
}

/// The raw code a status stands for; `Unknown` gets the first code outside
/// the known range.
pub open spec fn status_to_raw_spec(status: Status) -> u32 {
    match status {
        Status::NotStarted => RAW_NOT_STARTED,
        Status::CollectingData => RAW_COLLECTING_DATA,
        Status::CollectingDataFailed => RAW_COLLECTING_DATA_FAILED,
        Status::InvokingCallback => RAW_INVOKING_CALLBACK,
        Status::Finished => RAW_FINISHED,
        Status::Unknown => 5,
    }
}

/// Maps a raw native status code to its status, totally: every code in the
/// known range maps to its own variant, every other code to `Unknown`.
pub fn status_from_raw(raw: u32) -> (status: Status)
    ensures
        status == status_from_raw_spec(raw),
{
    if raw == RAW_NOT_STARTED {
        Status::NotStarted
    } else if raw == RAW_COLLECTING_DATA {
        Status::CollectingData
    } else if raw == RAW_COLLECTING_DATA_FAILED {
        Status::CollectingDataFailed
    } else if raw == RAW_INVOKING_CALLBACK {
        Status::InvokingCallback
    } else if raw == RAW_FINISHED {
        Status::Finished
    } else {
        Status::Unknown
    }
}

/// Maps a status back to the raw code it stands for.
pub fn status_to_raw(status: &Status) -> (raw: u32)
    ensures
        raw == status_to_raw_spec(*status),
{
    match status {
        Status::NotStarted => RAW_NOT_STARTED,
        Status::CollectingData => RAW_COLLECTING_DATA,
        Status::CollectingDataFailed => RAW_COLLECTING_DATA_FAILED,
        Status::InvokingCallback => RAW_INVOKING_CALLBACK,
        Status::Finished => RAW_FINISHED,
        Status::Unknown => 5,
    }
}

/// Law: each raw code in the known range round-trips through the status
/// mapping back to itself, and every code outside the known range maps to
/// `Unknown`.
pub proof fn lemma_status_raw_round_trip(raw: u32)
    ensures
        raw <= RAW_FINISHED ==> status_to_raw_spec(status_from_raw_spec(raw)) == raw,
        raw > RAW_FINISHED ==> status_from_raw_spec(raw) == Status::Unknown,
{
}

/// Law: each status round-trips through its raw code back to itself.
pub proof fn lemma_status_round_trip(status: Status)
    ensures
        status_from_raw_spec(status_to_raw_spec(status)) == status,
{
}

/// True of the two statuses that end a wait: the collection failed, or it
/// finished.
pub open spec fn is_terminal_spec(status: Status) -> bool {
    status == Status::CollectingDataFailed || status == Status::Finished
}

impl Status {
    /// Whether this status ends a wait for the collection's outcome.
    pub fn is_terminal(&self) -> (terminal: bool)
        ensures
            terminal == is_terminal_spec(*self),
    {
        *self == Status::CollectingDataFailed || *self == Status::Finished
    }
}

/// Whether a waiting loop polls again: the last observed status is not
/// terminal and the timeout, if there is one, has not elapsed.
pub open spec fn should_continue_spec(status: Status, elapsed_ms: u64, timeout_ms: Option<u64>) -> bool {
    &&& !is_terminal_spec(status)
    &&& match timeout_ms {
        Option::None => true,
        Option::Some(t) => elapsed_ms < t,
    }
}

/// The one decision a waiting loop makes each round: poll again, or return
/// the status it holds.
pub fn should_continue(status: &Status, elapsed_ms: u64, timeout_ms: &Option<u64>) -> (cont: bool)
    ensures
        cont == should_continue_spec(*status, elapsed_ms, *timeout_ms),
{
    if status.is_terminal() {
        false
    } else {
        match timeout_ms {
            Option::None => true,
            Option::Some(t) => elapsed_ms < *t,
        }
    }
}

/// The raw code the `k`-th poll of a source hands out, counted from a state
/// in which the given codes are still to come: the `k`-th of those codes, or
/// `RAW_FINISHED` once they are exhausted.
pub open spec fn scripted_raw(remaining: Seq<u32>, k: int) -> u32 {
    if 0 <= k < remaining.len() {
        remaining[k]
    } else {
        RAW_FINISHED
    }
}

/// A status source that replays a fixed script of raw codes, one per poll.
///
/// The native status query is a process-global effect that no caller can
/// steer, so waiting is written against a source of observations instead;
/// this one simulates any course the native collection could take. A poll
/// past the end of the script reports `RAW_FINISHED`, as a collection that
/// has long completed would.
pub struct ScriptedStatusSource {
    script: Vec<u32>,
    pos: usize,
    history: Ghost<Seq<u32>>,
    pause_count: Ghost<nat>,
}

impl ScriptedStatusSource {
    /// Raw codes handed out so far, oldest first.
    pub closed spec fn observed(&self) -> Seq<u32> {
        self.history@
    }

    /// Scripted raw codes not yet handed out.
    pub closed spec fn remaining(&self) -> Seq<u32> {
        if self.pos <= self.script@.len() {
            self.script@.skip(self.pos as int)
        } else {
            Seq::empty()
        }
    }

    /// Poll-interval rests taken so far.
    pub closed spec fn pauses(&self) -> nat {
        self.pause_count@
    }

    /// The raw code the next poll will hand out.
    pub open spec fn next_raw(&self) -> u32 {
        if self.remaining().len() > 0 {
            self.remaining()[0]
        } else {
            RAW_FINISHED
        }
    }

    /// A source that will hand out exactly the given raw codes, in order.
    pub fn new(script: Vec<u32>) -> (source: Self)
        ensures
            source.remaining() == script@,
            source.observed() == Seq::<u32>::empty(),
            source.pauses() == 0,
    {
        let source = ScriptedStatusSource {
            script,
            pos: 0,
            history: Ghost(Seq::empty()),
            pause_count: Ghost(0),
        };
        proof {
            assert(source.remaining() =~= source.script@);
        }
        source
    }

    /// Hands out the next raw code and records the observation.
    pub fn poll_raw(&mut self) -> (raw: u32)
        ensures
            raw == old(self).next_raw(),
            final(self).observed() == old(self).observed().push(raw),
            final(self).remaining() == (if old(self).remaining().len() > 0 {
                old(self).remaining().skip(1)
            } else {
                old(self).remaining()
            }),
            final(self).pauses() == old(self).pauses(),
    {
        let raw: u32 = if self.pos < self.script.len() {
            let code = self.script[self.pos];
            self.pos = self.pos + 1;
            code
        } else {
            RAW_FINISHED
        };
        proof {
            if old(self).remaining().len() > 0 {
                assert forall|i: int| 0 <= i < self.remaining().len() implies
                    self.remaining()[i] == old(self).remaining().skip(1)[i] by {
                    assert(self.remaining()[i] == self.script@[old(self).pos + 1 + i]);
                    assert(old(self).remaining().skip(1)[i] == old(self).remaining()[i + 1]);
                }
                assert(self.remaining() =~= old(self).remaining().skip(1));
            } else {
                assert(self.remaining() =~= old(self).remaining());
            }
        }
        self.history = Ghost(self.history@.push(raw));
        raw
    }

    /// Rests for one poll interval of simulated time.
    pub fn pause(&mut self)
        ensures
            final(self).observed() == old(self).observed(),
            final(self).remaining() == old(self).remaining(),
            final(self).pauses() == old(self).pauses() + 1,
    {
        self.pause_count = Ghost(self.pause_count@ + 1);
    }

    /// How many scripted codes are still to come.
    pub fn remaining_len(&self) -> (n: usize)
        ensures
            n == self.remaining().len(),
    {
        if self.pos < self.script.len() {
            self.script.len() - self.pos
        } else {
            0
        }
    }
}

impl Status {
    /// One non-blocking status query: polls the source once and validates the
    /// raw code it reports.
    pub fn get(source: &mut ScriptedStatusSource) -> (status: Status)
        ensures
            status == status_from_raw_spec(old(source).next_raw()),
            final(source).observed() == old(source).observed().push(old(source).next_raw()),
            final(source).remaining() == (if old(source).remaining().len() > 0 {
                old(source).remaining().skip(1)
            } else {
                old(source).remaining()
            }),
            final(source).pauses() == old(source).pauses(),
    {
        let raw = source.poll_raw();
        status_from_raw(raw)
    }

    /// Polls the source at a fixed interval until it observes a terminal
    /// status or the timeout, if one is given, elapses; without a timeout it
    /// keeps polling until a terminal status appears. Returns the last
    /// observed status, whatever it is.
    pub fn wait_for_status(source: &mut ScriptedStatusSource, timeout_ms: Option<u64>) -> (status: Status)
        ensures
            // the call polls once up front and then once per rest taken
            final(source).pauses() >= old(source).pauses(),
            final(source).observed().len() == old(source).observed().len() + 1
                + final(source).pauses() - old(source).pauses(),
            // the returned status is the last one observed
            status == status_from_raw_spec(final(source).observed().last()),
            // every observation before the last saw the collection still under way
            forall|i: int|
                old(source).observed().len() <= i < final(source).observed().len() - 1
                    ==> !is_terminal_spec(status_from_raw_spec(#[trigger] final(source).observed()[i])),
            // the observations are the source's scripted codes, in order
            forall|k: int|
                0 <= k < final(source).observed().len() - old(source).observed().len()
                    ==> final(source).observed()[old(source).observed().len() + k]
                        == #[trigger] scripted_raw(old(source).remaining(), k),
            // the wait ends only at a terminal status or an elapsed timeout
            !is_terminal_spec(status) ==> (timeout_ms matches Option::Some(t)
                && (final(source).pauses() - old(source).pauses()) * (POLL_INTERVAL_MS as int)
                    >= t as int),
            // and it never rests past the deadline: every rest but the last
            // still fell short of the timeout
            timeout_ms matches Option::Some(t) ==> (final(source).pauses() == old(source).pauses()
                || (final(source).pauses() - old(source).pauses() - 1) * (POLL_INTERVAL_MS as int)
                    < t as int),
            // without a timeout, only a terminal status is returned
            timeout_ms is None ==> is_terminal_spec(status),
            // a zero timeout returns the status observed at call time, without resting
            timeout_ms == Option::Some(0u64) ==> final(source).pauses() == old(source).pauses(),
    {
        let ghost obs0 = source.observed();
        let ghost pauses0 = source.pauses();
        let ghost rem0 = source.remaining();
        let mut status = Status::get(source);
        proof {
            if rem0.len() == 0 {
                assert(source.remaining() =~= Seq::<u32>::empty());
            }
        }
        let mut elapsed_ms: u64 = 0;
        let mut cont = should_continue(&status, elapsed_ms, &timeout_ms);
        while cont
            invariant
                cont == should_continue_spec(status, elapsed_ms, timeout_ms),
                source.pauses() >= pauses0,
                source.observed().len() == obs0.len() + 1 + source.pauses() - pauses0,
                status == status_from_raw_spec(source.observed().last()),
                forall|i: int|
                    obs0.len() <= i < source.observed().len() - 1
                        ==> !is_terminal_spec(status_from_raw_spec(#[trigger] source.observed()[i])),
                forall|k: int|
                    0 <= k < source.observed().len() - obs0.len()
                        ==> source.observed()[obs0.len() + k] == #[trigger] scripted_raw(rem0, k),
                source.remaining() == (if source.observed().len() - obs0.len() <= rem0.len() {
                    rem0.skip(source.observed().len() - obs0.len())
                } else {
                    Seq::<u32>::empty()
                }),
                elapsed_ms as int == (if (source.pauses() - pauses0) * (POLL_INTERVAL_MS as int)
                    <= u64::MAX as int {
                    (source.pauses() - pauses0) * (POLL_INTERVAL_MS as int)
                } else {
                    u64::MAX as int
                }),
                timeout_ms matches Option::Some(t) ==> (source.pauses() == pauses0
                    || (source.pauses() - pauses0 - 1) * (POLL_INTERVAL_MS as int) < t as int),
                timeout_ms == Option::Some(0u64) ==> source.pauses() == pauses0,
            decreases source.remaining().len() + (if is_terminal_spec(status) { 0int } else { 1int }),
        {
            source.pause();
            if elapsed_ms <= u64::MAX - POLL_INTERVAL_MS {
                elapsed_ms = elapsed_ms + POLL_INTERVAL_MS;
            } else {
                elapsed_ms = u64::MAX;
            }
            let ghost taken = source.observed().len() - obs0.len();
            status = Status::get(source);
            proof {
                if taken < rem0.len() {
                    assert(rem0.skip(taken).skip(1) =~= rem0.skip(taken + 1));
                } else if taken == rem0.len() {
                    assert(rem0.skip(taken) =~= Seq::<u32>::empty());
                }
            }
            cont = should_continue(&status, elapsed_ms, &timeout_ms);
        }
        status
    }
}

} // verus!
