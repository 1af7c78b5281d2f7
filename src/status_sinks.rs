//! Periodic multi-rate fan-out of a status value to independent subscribers.
use sp_utils::mpsc::{tracing_unbounded, TracingUnboundedReceiver, TracingUnboundedSender};
use std::time::{Duration, Instant};
use vstd::prelude::*;

verus! {

#[verifier::external_type_specification]
#[verifier::external_body]
#[verifier::reject_recursive_types(T)]
pub struct ExTracingUnboundedSender<T>(TracingUnboundedSender<T>);

#[verifier::external_type_specification]
#[verifier::external_body]
#[verifier::reject_recursive_types(T)]
pub struct ExTracingUnboundedReceiver<T>(TracingUnboundedReceiver<T>);

#[verifier::external_type_specification]
#[verifier::external_body]
pub struct ExInstant(Instant);

/// Relies on sp-utils' `tracing_unbounded`: a new unbounded channel, as its
/// sending and its receiving half; `key` labels its metrics.
#[verifier::external_body]
pub(crate) fn open_channel<T>(key: &'static str) -> (r: (TracingUnboundedSender<T>, TracingUnboundedReceiver<T>)) {
    tracing_unbounded(key)
}

/// Relies on sp-utils' `TracingUnboundedSender::is_closed`, which forwards to
/// futures' `UnboundedSender::is_closed`: whether the receiving half is gone.
/// The answer depends on the receiver, so nothing is promised of it.
pub assume_specification<T>[ TracingUnboundedSender::<T>::is_closed ](
    s: &TracingUnboundedSender<T>,
) -> bool;

/// Relies on sp-utils' `TracingUnboundedSender::unbounded_send`: queues the value
/// on the channel, `Ok` unless the receiver is gone. Whether it succeeds depends
/// on the receiver, so nothing is promised of the result.
#[verifier::external_body]
pub(crate) fn try_deliver<T>(sender: &TracingUnboundedSender<T>, value: T) -> (queued: bool) {
    sender.unbounded_send(value).is_ok()
}

/// Relies on std's `Instant::now`: a reading of the monotonic clock.
#[verifier::external_body]
fn clock_origin() -> (r: Instant) {
    Instant::now()
}

/// Relies on std's `Instant::elapsed`: the monotonic time since `origin`. It
/// depends on the time, so nothing is promised of it.
#[verifier::external_body]
fn elapsed_since(origin: &Instant) -> (r: Duration) {
    origin.elapsed()
}

/// Relies on std's `Duration::as_millis`: the whole milliseconds of `d`. The
/// conversion is not restated here, so nothing is promised of it.
#[verifier::external_body]
fn whole_millis(d: &Duration) -> (r: u128) {
    d.as_millis()
}

/// The schedule of one subscriber: its interval and the time of its last
/// delivery (or of its registration, before the first delivery).
#[derive(Clone, Copy, PartialEq, Eq, Debug)]
pub struct Slot {
    pub interval_ms: u64,
    pub last_ms: u64,
}

/// Whether the interval of `slot` has elapsed at time `now`. A clock reading
/// earlier than the last delivery never makes a subscriber due.
pub open spec fn is_due(slot: Slot, now: u64) -> bool {
    now >= slot.last_ms && now - slot.last_ms >= slot.interval_ms
}

/// The schedule of a subscriber that stays registered after an update at `now`.
pub open spec fn refreshed(slot: Slot, now: u64) -> Slot {
    if is_due(slot, now) {
        Slot { interval_ms: slot.interval_ms, last_ms: now }
    } else {
        slot
    }
}

/// The schedule after an update at `now`, where `kept[i]` says whether the
/// `i`-th subscriber's channel was still open. Subscribers keep their order.
pub open spec fn after_update(s: Seq<Slot>, now: u64, kept: Seq<bool>) -> Seq<Slot>
    decreases s.len(),
{
    if s.len() == 0 {
        Seq::empty()
    } else {
        let rest = after_update(s.drop_last(), now, kept.take(s.len() - 1));
        if kept[s.len() - 1] {
            rest.push(refreshed(s.last(), now))
        } else {
            rest
        }
    }
}

/// Whether the `i`-th subscriber received the value in an update at `now`.
pub open spec fn delivered_to(s: Seq<Slot>, now: u64, kept: Seq<bool>, i: int) -> bool {
    kept[i] && is_due(s[i], now)
}

/// Whether a subscriber with schedule `slot` stays registered, and whether it
/// received the value, in an update at `now`, given whether its channel was
/// found closed and whether the send (made only to an open, due subscriber)
/// succeeded.
pub open spec fn spec_subscriber_step(slot: Slot, now: u64, closed: bool, send_ok: bool) -> (
    bool,
    bool,
) {
    (!closed && (!is_due(slot, now) || send_ok), !closed && is_due(slot, now) && send_ok)
}

/// Whether the interval of `slot` has elapsed at `now`.
pub fn is_due_at(slot: Slot, now: u64) -> (r: bool)
    ensures
        r == is_due(slot, now),
{
    now >= slot.last_ms && now - slot.last_ms >= slot.interval_ms
}

/// The fate of one subscriber in an update: it is dropped only when its
/// channel is closed or the send to it failed, and it receives the value
/// exactly when it is open, due, and the send succeeded.
pub fn subscriber_step(slot: Slot, now_ms: u64, closed: bool, send_ok: bool) -> (r: (bool, bool))
    ensures
        r == spec_subscriber_step(slot, now_ms, closed, send_ok),
        r.0 == (!closed && (!is_due(slot, now_ms) || send_ok)),
        r.1 == (!closed && is_due(slot, now_ms) && send_ok),
{
    let due = is_due_at(slot, now_ms);
    (!closed && (!due || send_ok), !closed && due && send_ok)
}

/// What one update did, for each subscriber registered before it, in order:
/// whether its channel was found closed, whether the send to it succeeded
/// (true when no send was made), whether it stays registered and whether it
/// received the value.
pub struct UpdateReport {
    pub closed: Vec<bool>,
    pub send_ok: Vec<bool>,
    pub kept: Vec<bool>,
    pub delivered: Vec<bool>,
}

/// `r` reports an update at `now` of the subscribers `s`.
pub open spec fn reports(s: Seq<Slot>, now: u64, r: UpdateReport) -> bool {
    &&& r.closed@.len() == s.len()
    &&& r.send_ok@.len() == s.len()
    &&& r.kept@.len() == s.len()
    &&& r.delivered@.len() == s.len()
    &&& forall|i: int|
        0 <= i < s.len() ==> (r.kept@[i], r.delivered@[i]) == spec_subscriber_step(
            #[trigger] s[i],
            now,
            r.closed@[i],
            r.send_ok@[i],
        )
}

#[verifier::reject_recursive_types(T)]
struct Subscriber<T> {
    interval_ms: u64,
    last_ms: u64,
    sender: TracingUnboundedSender<T>,
}

impl<T> Subscriber<T> {
    spec fn slot(&self) -> Slot {
        Slot { interval_ms: self.interval_ms, last_ms: self.last_ms }
    }
}

/// A registry of subscribers, each served no more often than its own interval.
#[verifier::reject_recursive_types(T)]
pub struct StatusSinks<T> {
    origin: Instant,
    entries: Vec<Subscriber<T>>,
}

impl<T> View for StatusSinks<T> {
    type V = Seq<Slot>;

    closed spec fn view(&self) -> Seq<Slot> {
        self.entries@.map_values(|e: Subscriber<T>| e.slot())
    }
}

proof fn lemma_after_update_step(s: Seq<Slot>, now: u64, kept: Seq<bool>, i: int)
    requires
        0 <= i < s.len(),
        kept.len() == i + 1,
    ensures
        after_update(s.take(i + 1), now, kept) == (if kept[i] {
            after_update(s.take(i), now, kept.take(i)).push(refreshed(s[i], now))
        } else {
            after_update(s.take(i), now, kept.take(i))
        }),
{
    assert(s.take(i + 1).drop_last() =~= s.take(i));
}

impl<T: Clone> StatusSinks<T> {
    /// An empty registry; the monotonic clock starts now.
    pub fn new() -> (r: Self)
        ensures
            r@ == Seq::<Slot>::empty(),
    {
        let r = StatusSinks { origin: clock_origin(), entries: Vec::new() };
        proof {
            assert(r@ =~= Seq::<Slot>::empty());
        }
        r
    }

    /// The number of registered subscribers.
    pub fn len(&self) -> (n: usize)
        ensures
            n == self@.len(),
    {
        self.entries.len()
    }

    /// Milliseconds of the monotonic clock since the registry was made;
    /// milliseconds beyond `u64::MAX` read as `u64::MAX`.
    pub fn now_ms(&self) -> u64 {
        let ms = whole_millis(&elapsed_since(&self.origin));
        if ms > u64::MAX as u128 {
            u64::MAX
        } else {
            ms as u64
        }
    }

    /// Registers a subscriber that wants a value every `interval_ms`, counted
    /// from `now_ms`. Nothing is sent at registration.
    pub fn push_at(&mut self, interval_ms: u64, now_ms: u64, sender: TracingUnboundedSender<T>)
        ensures
            final(self)@ == old(self)@.push(Slot { interval_ms, last_ms: now_ms }),
    {
        self.entries.push(Subscriber { interval_ms, last_ms: now_ms, sender });
        proof {
            assert(final(self)@ =~= old(self)@.push(Slot { interval_ms, last_ms: now_ms }));
        }
    }

    /// Registers a subscriber, counting its interval from the current reading
    /// of the monotonic clock.
    pub fn push(&mut self, interval_ms: u64, sender: TracingUnboundedSender<T>)
        ensures
            final(self)@.len() == old(self)@.len() + 1,
            final(self)@.drop_last() == old(self)@,
            final(self)@.last().interval_ms == interval_ms,
    {
        let now = self.now_ms();
        self.push_at(interval_ms, now, sender);
        proof {
            assert(final(self)@.drop_last() =~= old(self)@);
        }
    }

    /// Hands `value` to every subscriber whose interval has elapsed at the
    /// current reading of the monotonic clock; see `update_at`.
    pub fn update(&mut self, value: &T) -> (report: UpdateReport)
        ensures
            exists|now: u64|
                {
                    &&& reports(old(self)@, now, report)
                    &&& final(self)@ == after_update(old(self)@, now, report.kept@)
                },
    {
        let now = self.now_ms();
        self.update_at(now, value)
    }

    /// Hands `value` to every subscriber whose interval has elapsed at `now_ms`
    /// and restarts its interval; drops every subscriber whose channel is
    /// closed. Nothing is queued for later: a missed interval is skipped.
    pub fn update_at(&mut self, now_ms: u64, value: &T) -> (report: UpdateReport)
        ensures
            reports(old(self)@, now_ms, report),
            final(self)@ == after_update(old(self)@, now_ms, report.kept@),
            forall|i: int|
                0 <= i < old(self)@.len() ==> report.delivered@[i] == delivered_to(
                    old(self)@,
                    now_ms,
                    report.kept@,
                    i,
                ),
    {
        let ghost orig = self@;
        let mut pending: Vec<Subscriber<T>> = Vec::new();
        std::mem::swap(&mut pending, &mut self.entries);
        let ghost orig_entries = pending@;
        let mut kept: Vec<bool> = Vec::new();
        let mut delivered: Vec<bool> = Vec::new();
        let mut closed_flags: Vec<bool> = Vec::new();
        let mut send_flags: Vec<bool> = Vec::new();
        proof {
            assert(orig_entries.map_values(|e: Subscriber<T>| e.slot()) == orig);
            assert(orig.take(0) =~= Seq::<Slot>::empty());
            assert(kept@.take(0) =~= Seq::<bool>::empty());
            assert(self@ =~= Seq::<Slot>::empty());
        }
        while pending.len() > 0
            invariant
                orig.len() == orig_entries.len(),
                forall|j: int| 0 <= j < orig.len() ==> orig[j] == (#[trigger] orig_entries[j]).slot(),
                kept@.len() == delivered@.len(),
                kept@.len() == closed_flags@.len(),
                kept@.len() == send_flags@.len(),
                kept@.len() + pending@.len() == orig.len(),
                forall|j: int|
                    0 <= j < kept@.len() ==> (kept@[j], delivered@[j]) == spec_subscriber_step(
                        #[trigger] orig[j],
                        now_ms,
                        closed_flags@[j],
                        send_flags@[j],
                    ),
                pending@ == orig_entries.skip(kept@.len() as int),
                self@ == after_update(orig.take(kept@.len() as int), now_ms, kept@),
                forall|j: int|
                    0 <= j < kept@.len() ==> delivered@[j] == delivered_to(orig, now_ms, kept@, j),
            decreases pending@.len(),
        {
            let ghost i = kept@.len() as int;
            let ghost before = self@;
            let ghost prev_kept = kept@;
            let mut entry = pending.remove(0);
            assert(entry.slot() == orig[i]);
            let slot = Slot { interval_ms: entry.interval_ms, last_ms: entry.last_ms };
            let closed = entry.sender.is_closed();
            let send_ok = if !closed && is_due_at(slot, now_ms) {
                try_deliver(&entry.sender, value.clone())
            } else {
                true
            };
            let (stays, sent) = subscriber_step(slot, now_ms, closed, send_ok);
            if sent {
                entry.last_ms = now_ms;
            }
            assert(stays ==> entry.slot() == refreshed(orig[i], now_ms));
            assert(sent == (stays && is_due(orig[i], now_ms)));
            if stays {
                self.entries.push(entry);
            }
            kept.push(stays);
            delivered.push(sent);
            closed_flags.push(closed);
            send_flags.push(send_ok);
            proof {
                assert(kept@.take(i) =~= prev_kept);
                assert(pending@ =~= orig_entries.skip(i + 1));
                lemma_after_update_step(orig, now_ms, kept@, i);
                if stays {
                    assert(self@ =~= before.push(entry.slot()));
                }
            }
        }
        proof {
            assert(orig.take(orig.len() as int) =~= orig);
        }
        UpdateReport { closed: closed_flags, send_ok: send_flags, kept, delivered }
    }
}

/// A subscriber is served at most once per interval: after it received a
/// value at `now`, it is not due again before `interval_ms` more has passed.
pub proof fn lemma_at_most_once_per_interval(slot: Slot, now: u64, later: u64)
    requires
        is_due(slot, now),
        is_due(refreshed(slot, now), later),
    ensures
        later >= now + slot.interval_ms,
{
}

/// A subscriber whose interval has not elapsed keeps its schedule, so a
/// missed interval is skipped rather than made up.
pub proof fn lemma_not_due_unchanged(slot: Slot, now: u64)
    requires
        !is_due(slot, now),
    ensures
        refreshed(slot, now) == slot,
{
}

} // verus!
