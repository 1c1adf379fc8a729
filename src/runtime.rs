use vstd::prelude::*;
use std::collections::BTreeMap;

verus! {

/// Static labels and encoded metric families for one push.
pub struct MetricPayload {
    /// static labels defined in config, eg host, network, etc
    pub labels: Option<BTreeMap<String, String>>,
    /// protobuf encoded metric families
    pub buf: Vec<u8>,
}

/// The JSON text that serde_json writes for a map of string labels.
pub uninterp spec fn json_of_labels(labels: Map<Seq<char>, Seq<char>>) -> Seq<u8>;

/// The decimal digits of `n`, without leading zeros.
pub open spec fn decimal(n: nat) -> Seq<u8>
    decreases n,
{
    if n < 10 {
        seq![(48 + n) as u8]
    } else {
        decimal(n / 10) + seq![(48 + n % 10) as u8]
    }
}

/// The bytes of `b` in decimal, separated by commas.
pub open spec fn json_items(b: Seq<u8>) -> Seq<u8>
    decreases b.len(),
{
    if b.len() == 0 {
        seq![]
    } else if b.len() == 1 {
        decimal(b[0] as nat)
    } else {
        json_items(b.drop_last()) + seq![44u8] + decimal(b.last() as nat)
    }
}

/// The JSON text of a byte vector: an array of its bytes in decimal.
pub open spec fn json_of_bytes(b: Seq<u8>) -> Seq<u8> {
    seq![91u8] + json_items(b) + seq![93u8]
}

/// Whether snap can compress an input of `len` bytes: its worst-case output
/// size, `32 + len + len / 6`, must not exceed `2^32 - 1`.
pub open spec fn snappy_fits(len: nat) -> bool {
    32 + len + len / 6 <= 0xFFFF_FFFF
}

/// The raw Snappy block that snap writes for `b`.
pub uninterp spec fn snappy_of(b: Seq<u8>) -> Seq<u8>;

/// Relies on serde_json::to_vec: the JSON object of the labels, in key order.
/// It fails only for a failing `Serialize` impl or a non-string key, so never
/// on a map of strings.
#[verifier::external_body]
fn labels_json(labels: &BTreeMap<String, String>) -> (r: Result<Vec<u8>, PushCycleError>)
    ensures
        r is Ok,
        r matches Ok(b) ==> b@ == json_of_labels(labels.deep_view()),
{
    serde_json::to_vec(labels).map_err(|_| PushCycleError::Serialize)
}

/// Relies on serde_json::to_vec: the JSON array of the bytes in decimal. It
/// never fails on a byte vector.
#[verifier::external_body]
fn bytes_json(b: &Vec<u8>) -> (r: Result<Vec<u8>, PushCycleError>)
    ensures
        r is Ok,
        r matches Ok(j) ==> j@ == json_of_bytes(b@),
{
    serde_json::to_vec(b).map_err(|_| PushCycleError::Serialize)
}

/// Relies on snap::raw::Encoder::compress_vec: a raw Snappy block of the input.
/// It fails exactly when `max_compress_len` of the input length is 0, that is
/// when the worst-case output would exceed `2^32 - 1` bytes.
#[verifier::external_body]
fn snappy_compress(b: &Vec<u8>) -> (r: Result<Vec<u8>, PushCycleError>)
    ensures
        r is Ok <==> snappy_fits(b@.len()),
        r matches Ok(c) ==> c@ == snappy_of(b@),
        r matches Err(e) ==> e is Compress,
{
    snap::raw::Encoder::new().compress_vec(b.as_slice()).map_err(|_| PushCycleError::Compress)
}


/// Why one push cycle failed; the loop goes on at the next tick.
pub enum PushCycleError {
    /// The payload could not be written as JSON.
    Serialize,
    /// The payload could not be compressed.
    Compress,
    /// The push could not be sent or the collector did not accept it.
    Send,
}

/// `{"labels":`
pub open spec fn labels_open() -> Seq<u8> {
    seq![123u8, 34u8, 108u8, 97u8, 98u8, 101u8, 108u8, 115u8, 34u8, 58u8]
}

/// `,"buf":`
pub open spec fn buf_after_labels() -> Seq<u8> {
    seq![44u8, 34u8, 98u8, 117u8, 102u8, 34u8, 58u8]
}

/// `{"buf":`
pub open spec fn buf_open() -> Seq<u8> {
    seq![123u8, 34u8, 98u8, 117u8, 102u8, 34u8, 58u8]
}

/// The JSON object of a payload from the JSON of its parts: the labels field
/// first and only when present, then the buffer.
pub open spec fn payload_json(labels: Option<Seq<u8>>, buf: Seq<u8>) -> Seq<u8> {
    match labels {
        Some(l) => labels_open() + l + buf_after_labels() + buf + seq![125u8],
        None => buf_open() + buf + seq![125u8],
    }
}

fn append(out: &mut Vec<u8>, s: &Vec<u8>)
    ensures
        final(out)@ == old(out)@ + s@,
{
    let mut i: usize = 0;
    while i < s.len()
        invariant
            i <= s@.len(),
            out@ == old(out)@ + s@.take(i as int),
        decreases s@.len() - i,
    {
        out.push(s[i]);
        i = i + 1;
        proof {
            assert(s@.take(i as int) =~= s@.take(i - 1).push(s@[i - 1]));
        }
    }
    proof {
        assert(s@.take(i as int) =~= s@);
    }
}

/// Frames the JSON object of a payload from the JSON of its labels (if any)
/// and of its buffer.
pub fn frame_payload(labels: &Option<Vec<u8>>, buf: &Vec<u8>) -> (r: Vec<u8>)
    ensures
        r@ == payload_json(
            match labels {
                Some(l) => Some(l@),
                None => None,
            },
            buf@,
        ),
{
    let mut out: Vec<u8> = Vec::new();
    match labels {
        Some(l) => {
            append(&mut out, &vec![123u8, 34u8, 108u8, 97u8, 98u8, 101u8, 108u8, 115u8, 34u8, 58u8]);
            append(&mut out, l);
            append(&mut out, &vec![44u8, 34u8, 98u8, 117u8, 102u8, 34u8, 58u8]);
        },
        None => {
            append(&mut out, &vec![123u8, 34u8, 98u8, 117u8, 102u8, 34u8, 58u8]);
        },
    }
    append(&mut out, buf);
    out.push(125u8);
    proof {
        match labels {
            Some(l) => {
                assert(out@ =~= labels_open() + l@ + buf_after_labels() + buf@ + seq![125u8]);
            },
            None => {
                assert(out@ =~= buf_open() + buf@ + seq![125u8]);
            },
        }
    }
    out
}

/// The JSON text of a payload.
pub open spec fn push_json_of(payload: MetricPayload) -> Seq<u8> {
    payload_json(
        match payload.labels {
            Some(m) => Some(json_of_labels(m.deep_view())),
            None => None,
        },
        json_of_bytes(payload.buf@),
    )
}

/// The request body of a push: the payload's JSON, Snappy-compressed.
pub open spec fn push_body_of(payload: MetricPayload) -> Seq<u8> {
    snappy_of(push_json_of(payload))
}

/// Serializes and compresses a payload for the push request. It succeeds
/// exactly when the JSON is small enough to compress; otherwise the cycle
/// fails with a compression error.
pub fn push_body(payload: &MetricPayload) -> (r: Result<Vec<u8>, PushCycleError>)
    ensures
        r is Ok <==> snappy_fits(push_json_of(*payload).len()),
        r matches Ok(b) ==> b@ == push_body_of(*payload),
        r matches Err(e) ==> e is Compress,
{
    let labels = match &payload.labels {
        Some(m) => Some(labels_json(m)?),
        None => None,
    };
    let buf = bytes_json(&payload.buf)?;
    let framed = frame_payload(&labels, &buf);
    snappy_compress(&framed)
}

/// Whether a push was accepted: the collector answered with a 2xx status.
pub fn push_succeeded(status: u16) -> (r: bool)
    ensures
        r == (200 <= status && status < 300),
{
    200 <= status && status < 300
}

/// What the push loop does next.
pub enum PushStep {
    /// Push the current registry state now.
    Push,
    /// Sleep until this instant (milliseconds), unless cancelled before.
    Wait { until_ms: u64 },
    /// Leave the loop: cancellation was signalled.
    Exit,
}

/// The decisions of the push loop: when the next tick is due, whether it was
/// cancelled, and how many pushes in a row have failed.
pub struct PushSchedule {
    period_ms: u64,
    next_tick_ms: u64,
    cancelled: bool,
    failures: u64,
}

/// The mathematical state of a push schedule.
pub struct ScheduleState {
    pub period: nat,
    pub next_tick: nat,
    pub cancelled: bool,
    pub failures: nat,
}

impl View for PushSchedule {
    type V = ScheduleState;

    closed spec fn view(&self) -> ScheduleState {
        ScheduleState {
            period: self.period_ms as nat,
            next_tick: self.next_tick_ms as nat,
            cancelled: self.cancelled,
            failures: self.failures as nat,
        }
    }
}

/// The next tick after one that fired late or on time at `now`: the first
/// instant of the schedule (due + k * period) at least one period after `now`.
/// Ticks missed in between are skipped, not queued.
pub open spec fn next_tick_after(due: nat, period: nat, now: nat) -> nat {
    let late = ((now - due) as int % period as int) as nat;
    if late == 0 {
        now + period
    } else {
        (now - late + 2 * period) as nat
    }
}

/// One wake of the loop at `now`: the new state and the step to take. A clock
/// reading too close to the end of the `u64` range to place the next tick
/// never pushes.
pub open spec fn wake(s: ScheduleState, now: nat, cancelled: bool) -> (ScheduleState, PushStep) {
    if s.cancelled || cancelled {
        (ScheduleState { cancelled: true, ..s }, PushStep::Exit)
    } else if now >= s.next_tick && now + 2 * s.period <= u64::MAX {
        (ScheduleState { next_tick: next_tick_after(s.next_tick, s.period, now), ..s }, PushStep::Push)
    } else if now >= s.next_tick {
        // the clock reads beyond what the schedule can count in milliseconds
        (s, PushStep::Wait { until_ms: u64::MAX })
    } else {
        (s, PushStep::Wait { until_ms: s.next_tick as u64 })
    }
}

/// The state after a push that succeeded or failed: only the count of
/// failures in a row changes.
pub open spec fn record_push(s: ScheduleState, succeeded: bool) -> ScheduleState {
    ScheduleState {
        failures: if succeeded {
            0
        } else if s.failures < u64::MAX {
            s.failures + 1
        } else {
            s.failures
        },
        ..s
    }
}

/// The state after `n` failed pushes in a row.
pub open spec fn after_failures(s: ScheduleState, n: nat) -> ScheduleState
    decreases n,
{
    if n == 0 {
        s
    } else {
        record_push(after_failures(s, (n - 1) as nat), false)
    }
}

/// However many pushes fail in a row, the loop is not cancelled by them, its
/// ticks stay where they were, and a wake without cancellation never exits.
pub proof fn lemma_failures_keep_running(s: ScheduleState, n: nat, now: nat)
    requires
        !s.cancelled,
    ensures
        !after_failures(s, n).cancelled,
        after_failures(s, n).next_tick == s.next_tick,
        after_failures(s, n).period == s.period,
        !(wake(after_failures(s, n), now, false).1 is Exit),
    decreases n,
{
    if n > 0 {
        lemma_failures_keep_running(s, (n - 1) as nat, now);
    }
}

/// Cancellation wins over a due tick: the wake exits without pushing, and a
/// cancelled loop exits on every later wake.
pub proof fn lemma_cancel_exits(s: ScheduleState, now: nat, later: nat, cancelled_later: bool)
    ensures
        wake(s, now, true).1 is Exit,
        wake(s, now, true).0.cancelled,
        wake(wake(s, now, true).0, later, cancelled_later).1 is Exit,
{
}

/// After a push at `now`, the next tick is at least one period later and less
/// than two periods later: missed ticks are skipped, not queued, and no push
/// follows another by less than a period.
pub proof fn lemma_ticks_spaced(s: ScheduleState, now: nat, later: nat)
    requires
        s.period > 0,
        wake(s, now, false).1 is Push,
    ensures
        now + s.period <= wake(s, now, false).0.next_tick,
        wake(s, now, false).0.next_tick < now + 2 * s.period,
        wake(wake(s, now, false).0, later, false).1 is Push ==> later >= now + s.period,
{
    let late = ((now - s.next_tick) as int % s.period as int);
    assert(0 <= late < s.period) by (nonlinear_arith)
        requires
            late == ((now - s.next_tick) as int % s.period as int),
            s.period > 0,
    ;
}

impl PushSchedule {
    /// A schedule with a positive period.
    pub open spec fn wf(&self) -> bool {
        self@.period > 0
    }

    /// A running schedule whose first tick is due at `start_ms`.
    pub fn new(start_ms: u64, period_ms: u64) -> (r: PushSchedule)
        requires
            period_ms > 0,
        ensures
            r.wf(),
            r@ == (ScheduleState {
                period: period_ms as nat,
                next_tick: start_ms as nat,
                cancelled: false,
                failures: 0,
            }),
    {
        PushSchedule { period_ms, next_tick_ms: start_ms, cancelled: false, failures: 0 }
    }

    /// Decides what to do on waking at `now_ms`: exit once cancelled, push when
    /// the tick is due (moving the tick past the skipped ones), else wait.
    pub fn on_wake(&mut self, now_ms: u64, cancelled: bool) -> (r: PushStep)
        requires
            old(self).wf(),
        ensures
            final(self).wf(),
            (final(self)@, r) == wake(old(self)@, now_ms as nat, cancelled),
    {
        if self.cancelled || cancelled {
            self.cancelled = true;
            return PushStep::Exit;
        }
        if now_ms >= self.next_tick_ms && self.period_ms <= (u64::MAX - now_ms) / 2 {
            let elapsed = now_ms - self.next_tick_ms;
            let late = elapsed % self.period_ms;
            assert(late <= elapsed) by (nonlinear_arith)
                requires
                    late == elapsed % self.period_ms,
                    self.period_ms > 0,
            ;
            if late == 0 {
                self.next_tick_ms = now_ms + self.period_ms;
            } else {
                self.next_tick_ms = now_ms - late + 2 * self.period_ms;
            }
            PushStep::Push
        } else if now_ms >= self.next_tick_ms {
            PushStep::Wait { until_ms: u64::MAX }
        } else {
            PushStep::Wait { until_ms: self.next_tick_ms }
        }
    }

    /// Records the outcome of a push; returns whether the push client must be
    /// rebuilt, which is exactly when the push failed. The schedule itself is
    /// not affected.
    pub fn on_push_result(&mut self, succeeded: bool) -> (rebuild: bool)
        requires
            old(self).wf(),
        ensures
            final(self).wf(),
            rebuild == !succeeded,
            final(self)@ == record_push(old(self)@, succeeded),
    {
        if succeeded {
            self.failures = 0;
        } else if self.failures < u64::MAX {
            self.failures = self.failures + 1;
        }
        !succeeded
    }

    /// How many pushes in a row have failed.
    pub fn consecutive_failures(&self) -> (r: u64)
        ensures
            r as nat == self@.failures,
    {
        self.failures
    }

    /// Whether the loop has been cancelled.
    pub fn is_cancelled(&self) -> (r: bool)
        ensures
            r == self@.cancelled,
    {
        self.cancelled
    }
}

} // verus!
