use vstd::prelude::*;
use std::sync::mpsc::{Receiver, Sender};
use std::time::Instant;

verus! {

#[verifier::external_type_specification]
#[verifier::external_body]
pub struct ExInstant(Instant);

#[verifier::external_type_specification]
#[verifier::external_body]
#[verifier::reject_recursive_types(T)]
pub struct ExSender<T>(Sender<T>);

#[verifier::external_type_specification]
#[verifier::external_body]
#[verifier::reject_recursive_types(T)]
pub struct ExReceiver<T>(Receiver<T>);

/// Relies on `Instant::now`: the current instant of the monotonic clock.
#[verifier::external_body]
fn instant_now() -> Instant {
    Instant::now()
}

/// Relies on `Instant::elapsed`: nanoseconds since `start`, capped at the
/// largest `u64`.
#[verifier::external_body]
fn nanos_since(start: &Instant) -> u64 {
    u64::try_from(start.elapsed().as_nanos()).unwrap_or(u64::MAX)
}

/// Relies on `std::sync::mpsc::channel`: a fresh channel of durations.
#[verifier::external_body]
fn duration_channel() -> (Sender<u64>, Receiver<u64>) {
    std::sync::mpsc::channel::<u64>()
}

/// Relies on `Receiver::try_recv`: the oldest value waiting, if any.
#[verifier::external_body]
fn try_receive(receiver: &Receiver<u64>) -> Option<u64> {
    receiver.try_recv().ok()
}

/// Relies on `Sender::clone`: another sender into the same channel.
#[verifier::external_body]
fn clone_sender(sender: &Sender<u64>) -> Sender<u64> {
    sender.clone()
}

/// Relies on `Sender::send`: whether the value was handed to the channel,
/// which fails only when the receiving side is gone.
#[verifier::external_body]
fn send_duration(sender: &Sender<u64>, duration: u64) -> bool {
    sender.send(duration).is_ok()
}

/// A lap clock: it is started, then tells the nanoseconds since.
pub trait ElapsedTimeSource {
    /// Marks now as the start of the measurement.
    fn start(&mut self);

    /// Nanoseconds since the last start.
    fn elapsed_time(&mut self) -> u64;
}

/// The lap clock on the monotonic system clock.
pub struct MonotonicTimeSource {
    pub start: Option<Instant>,
}

impl MonotonicTimeSource {
    /// A clock that has not been started: it reads zero.
    pub fn new() -> (r: MonotonicTimeSource)
        ensures
            r.start is None,
    {
        MonotonicTimeSource { start: None }
    }

    pub fn restart(&mut self)
        ensures
            final(self).start is Some,
    {
        self.start = Some(instant_now());
    }

    /// Nanoseconds since the start; zero before the first start.
    pub fn read(&self) -> (r: u64)
        ensures
            self.start is None ==> r == 0,
    {
        match &self.start {
            None => 0,
            Some(i) => nanos_since(i),
        }
    }
}

impl ElapsedTimeSource for MonotonicTimeSource {
    fn start(&mut self) {
        self.restart();
    }

    fn elapsed_time(&mut self) -> u64 {
        self.read()
    }
}

/// A lap clock driven from outside: it reads the latest duration sent into
/// its channel, or zero before any; starting it does nothing.
pub struct ElapsedTestTimeSource {
    pub sender: Sender<u64>,
    pub receiver: Receiver<u64>,
    pub duration: u64,
}

impl ElapsedTestTimeSource {
    pub fn new() -> (r: ElapsedTestTimeSource)
        ensures
            r.duration == 0,
    {
        let (sender, receiver) = duration_channel();
        ElapsedTestTimeSource { sender, receiver, duration: 0 }
    }

    /// A sender through which durations reach this clock.
    pub fn sender(&self) -> Sender<u64> {
        clone_sender(&self.sender)
    }

    /// Takes the next duration sent, if one waits, and returns the latest.
    pub fn receive(&mut self) -> (r: u64)
        ensures
            r == final(self).duration,
    {
        let received = try_receive(&self.receiver);
        self.duration = latest_duration(self.duration, received);
        self.duration
    }
}

impl ElapsedTimeSource for ElapsedTestTimeSource {
    fn start(&mut self) {
    }

    fn elapsed_time(&mut self) -> u64 {
        self.receive()
    }
}

/// The clock reading after a look into the channel: the duration received,
/// or the current one when nothing was waiting.
pub fn latest_duration(current: u64, received: Option<u64>) -> (r: u64)
    ensures
        r == match received {
            Some(d) => d,
            None => current,
        },
{
    match received {
        Some(d) => d,
        None => current,
    }
}

/// Sends `duration` to the clock behind `sender`; false when that clock
/// is gone.
pub fn set_elapsed_time(sender: &Sender<u64>, duration: u64) -> (delivered: bool) {
    send_duration(sender, duration)
}

} // verus!
