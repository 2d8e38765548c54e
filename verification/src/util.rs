use vstd::prelude::*;

verus! {

// ---------------------------------------------------------------------------
// Outside types carried through the core: crossbeam channel endpoints and the
// monotonic clock. Verus sees them as opaque values.
// ---------------------------------------------------------------------------

#[verifier::external_type_specification]
#[verifier::external_body]
#[verifier::reject_recursive_types(T)]
pub struct ExSender<T>(crossbeam_channel::Sender<T>);

#[verifier::external_type_specification]
#[verifier::external_body]
#[verifier::reject_recursive_types(T)]
pub struct ExReceiver<T>(crossbeam_channel::Receiver<T>);

#[verifier::external_type_specification]
#[verifier::external_body]
pub struct ExInstant(std::time::Instant);

// ---------------------------------------------------------------------------
// Trusted calls into crossbeam_channel and the clock.
// ---------------------------------------------------------------------------

/// Relies on crossbeam_channel::unbounded: creates a connected sender/receiver
/// pair for a fresh queue.
#[verifier::external_body]
fn channel_endpoints<T>() -> (crossbeam_channel::Sender<T>, crossbeam_channel::Receiver<T>) {
    crossbeam_channel::unbounded()
}

/// Relies on crossbeam_channel::Sender::try_send: enqueues without blocking;
/// on a full queue or a disconnected peer the error carries the message back.
#[verifier::external_body]
fn try_send_raw<T>(sender: &crossbeam_channel::Sender<T>, message: T) -> (r: Result<(), T>)
    ensures
        r is Err ==> r->Err_0 == message,
{
    match sender.try_send(message) {
        Ok(()) => Ok(()),
        Err(crossbeam_channel::TrySendError::Full(m)) => Err(m),
        Err(crossbeam_channel::TrySendError::Disconnected(m)) => Err(m),
    }
}

/// Relies on crossbeam_channel::Receiver::try_iter: drains every message
/// queued at the time of the call, in FIFO order, without blocking.
#[verifier::external_body]
fn drain_raw<T>(receiver: &crossbeam_channel::Receiver<T>) -> Vec<T> {
    receiver.try_iter().collect()
}

/// Relies on crossbeam_channel::Receiver::recv_timeout: waits up to the given
/// duration for one message; a timeout or a disconnected peer yields nothing.
#[verifier::external_body]
fn recv_timeout_raw<T>(receiver: &crossbeam_channel::Receiver<T>, micros: u64) -> Option<T> {
    match receiver.recv_timeout(std::time::Duration::from_micros(micros)) {
        Ok(m) => Some(m),
        Err(_) => None,
    }
}

/// Relies on String::push: appends exactly the given character.
pub assume_specification[ String::push ](s: &mut String, ch: char)
    ensures
        final(s)@ == old(s)@.push(ch),
;

/// Relies on String::pop: removes and returns the last character, if any.
pub assume_specification[ String::pop ](s: &mut String) -> (r: Option<char>)
    ensures
        old(s)@.len() == 0 ==> final(s)@ == old(s)@ && r is None,
        old(s)@.len() > 0 ==> final(s)@ == old(s)@.drop_last() && r == Some(old(s)@.last()),
;

/// Relies on std::time::Instant::now: a reading of the monotonic clock.
#[verifier::external_body]
pub(crate) fn monotonic_now() -> std::time::Instant {
    std::time::Instant::now()
}

/// Relies on std::time::Instant::elapsed (with Duration::as_micros converting
/// the result): microseconds since the instant was taken.
#[verifier::external_body]
pub(crate) fn elapsed_micros(clock: &std::time::Instant) -> u128 {
    clock.elapsed().as_micros()
}

// ---------------------------------------------------------------------------
// Channels
// ---------------------------------------------------------------------------

/// A message refused by a saturated or disconnected channel, handed back to
/// the sender unchanged.
#[derive(Debug)]
pub struct Rejected<T>(pub T);

/// One end of a duplex, non-blocking message pipe between two workers.
#[verifier::reject_recursive_types(TX)]
#[verifier::reject_recursive_types(RX)]
pub struct ThreadChannel<TX, RX> {
    pub sender: crossbeam_channel::Sender<TX>,
    pub receiver: crossbeam_channel::Receiver<RX>,
}

impl<TX, RX> ThreadChannel<TX, RX> {
    pub fn new(
        sender: crossbeam_channel::Sender<TX>,
        receiver: crossbeam_channel::Receiver<RX>,
    ) -> (r: ThreadChannel<TX, RX>)
        ensures
            r.sender == sender,
            r.receiver == receiver,
    {
        ThreadChannel { sender, receiver }
    }

    /// Creates the two complementary ends of one duplex link; each end is
    /// meant to be moved into exactly one worker.
    pub fn new_pair() -> (ThreadChannel<TX, RX>, ThreadChannel<RX, TX>) {
        let (a_tx, b_rx) = channel_endpoints::<TX>();
        let (b_tx, a_rx) = channel_endpoints::<RX>();

        let a = ThreadChannel::new(a_tx, a_rx);
        let b = ThreadChannel::new(b_tx, b_rx);

        (a, b)
    }

    /// Attempts to enqueue without blocking. On failure the rejection carries
    /// the message back; capacity exhaustion or a dropped peer never stalls or
    /// panics the caller.
    pub fn send(&self, message: TX) -> (r: Result<(), Rejected<TX>>)
        ensures
            r matches Err(rejected) ==> rejected.0 == message,
    {
        match try_send_raw(&self.sender, message) {
            Ok(()) => Ok(()),
            Err(m) => Err(Rejected(m)),
        }
    }

    /// Drains and returns every message currently queued, in FIFO order,
    /// without blocking; an empty batch means "no new messages".
    pub fn receive(&self) -> Vec<RX> {
        drain_raw(&self.receiver)
    }

    /// Waits up to `micros` microseconds for one inbound message; used to pace
    /// a polling loop without busy-spinning.
    pub fn receive_timeout(&self, micros: u64) -> Option<RX> {
        recv_timeout_raw(&self.receiver, micros)
    }
}

// ---------------------------------------------------------------------------
// Frame pacing
// ---------------------------------------------------------------------------

/// Whether, `elapsed_micros` microseconds into a run, period number `count` at
/// `rate` periods per second is due.
pub open spec fn spec_period_elapsed(elapsed_micros: u128, count: u64, rate: u16) -> bool {
    elapsed_micros >= (count * 1000) / (rate as int)
}

/// Pure form of the period check, on an already-taken clock reading.
pub fn period_elapsed_at(elapsed: u128, count: &u64, rate: &u16) -> (r: bool)
    requires
        *rate > 0,
    ensures
        r == spec_period_elapsed(elapsed, *count, *rate),
{
    elapsed >= (*count as u128) * 1000 / (*rate as u128)
}

/// Whether period number `count` at `rate` periods per second has elapsed on
/// the given clock.
pub fn period_elapsed(clock: &std::time::Instant, count: &u64, rate: &u16) -> bool
    requires
        *rate > 0,
{
    period_elapsed_at(elapsed_micros(clock), count, rate)
}

/// How many microseconds a loop that has completed `count` frames in
/// `elapsed` microseconds must still sleep to fall back to `rate` frames per
/// second: the surplus of finished frames over due frames, converted to time.
/// A loop that is behind schedule sleeps nothing and so catches up.
pub open spec fn spec_frame_delay_micros(elapsed: u128, count: u128, rate: u128) -> int {
    if count * 1_000_000 > elapsed * rate {
        ((count * 1_000_000) - (elapsed * rate)) / (rate as int)
    } else {
        0
    }
}

/// Pure frame-pacing computation. When either product would exceed the
/// machine's integer range the loop is treated as behind schedule and the
/// delay is zero.
pub fn frame_delay_micros(elapsed: u128, count: u128, rate: u128) -> (r: u128)
    requires
        rate > 0,
    ensures
        count * 1_000_000 <= u128::MAX && elapsed * rate <= u128::MAX ==> r
            == spec_frame_delay_micros(elapsed, count, rate),
{
    let frame_total = count.checked_mul(1_000_000);
    let expected_total = elapsed.checked_mul(rate);
    match (frame_total, expected_total) {
        (Some(have), Some(expected)) => {
            if have > expected {
                (have - expected) / rate
            } else {
                0
            }
        },
        _ => 0,
    }
}

/// Counts the frame that just finished and returns how long the caller must
/// sleep to hold the loop at `rate` frames per second; the frame counter
/// saturates instead of wrapping.
pub fn remaining_frame_micros(clock: &std::time::Instant, count: &mut u128, rate: u128) -> (r: u128)
    requires
        rate > 0,
    ensures
        *final(count) == if *old(count) < u128::MAX {
            (*old(count) + 1) as u128
        } else {
            *old(count)
        },
{
    if *count < u128::MAX {
        *count = *count + 1;
    }
    frame_delay_micros(elapsed_micros(clock), *count, rate)
}

} // verus!
