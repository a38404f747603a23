//! Timestamped log lines, carried from background producers to the polling
//! consumer.
//!
//! Producers — backends on their own threads, and the application itself —
//! publish through clones of the sender half of an unbounded queue; the
//! consumer drains the queue into an append-only buffer once per poll, never
//! blocking. A line is text of a fixed shape: the timestamp, a level tag,
//! then the message.

use std::sync::mpsc::{Receiver, Sender};
use vstd::prelude::*;
use vstd::seq_lib::*;

verus! {

/// The producer half of std::sync::mpsc, declared so it can live in fields
/// and signatures; its values are opaque here.
#[verifier::external_type_specification]
#[verifier::external_body]
#[verifier::reject_recursive_types(T)]
pub struct ExSender<T>(Sender<T>);

/// The consumer half of std::sync::mpsc, declared the same way.
#[verifier::external_type_specification]
#[verifier::external_body]
#[verifier::reject_recursive_types(T)]
pub struct ExReceiver<T>(Receiver<T>);

/// Relies on std::sync::mpsc::channel: a fresh unbounded queue whose sender
/// half can be cloned across threads, while the receiver half stays with the
/// single consumer.
#[verifier::external_body]
fn channel_new() -> (Sender<String>, Receiver<String>) {
    std::sync::mpsc::channel()
}

/// Relies on std::sync::mpsc::Sender::send: enqueues the line for the
/// consumer without blocking. Sending can fail only once the receiving half
/// is gone, and publishing is deliberately fire-and-forget, so the outcome is
/// dropped.
#[verifier::external_body]
fn send_line(tx: &Sender<String>, line: String) {
    let _ = tx.send(line);
}

/// Relies on std::sync::mpsc::Receiver::try_iter: hands over every line
/// queued so far, in the order they were sent, and never waits for more.
#[verifier::external_body]
fn take_queued_lines(rx: &Receiver<String>) -> Vec<String> {
    rx.try_iter().collect()
}

/// Relies on chrono::Local::now: the local wall-clock time, rendered with
/// millisecond precision as `YYYY-MM-DD HH:MM:SS.mmm`.
#[verifier::external_body]
fn local_timestamp() -> String {
    chrono::Local::now().format("%Y-%m-%d %H:%M:%S%.3f").to_string()
}

/// How seriously a line is meant: errors always matter, debug chatter least.
#[derive(PartialEq, Eq, Structural, Clone, Copy, Debug)]
pub enum LogLevel {
    Error,
    Info,
    Debug,
}

/// A level's place in the order of seriousness; smaller is more serious.
pub open spec fn level_rank(level: LogLevel) -> nat {
    match level {
        LogLevel::Error => 1,
        LogLevel::Info => 2,
        LogLevel::Debug => 3,
    }
}

/// Whether a message of one level passes a buffer set to another: everything
/// at least as serious as the configured level does.
pub open spec fn level_enabled(current: LogLevel, message: LogLevel) -> bool {
    level_rank(message) <= level_rank(current)
}

fn level_allows(current: LogLevel, message: LogLevel) -> (r: bool)
    ensures
        r == level_enabled(current, message),
{
    level_rank_value(message) <= level_rank_value(current)
}

fn level_rank_value(level: LogLevel) -> (r: u8)
    ensures
        r == level_rank(level),
{
    match level {
        LogLevel::Error => 1,
        LogLevel::Info => 2,
        LogLevel::Debug => 3,
    }
}

/// The tag that marks a line's level.
pub open spec fn level_tag(level: LogLevel) -> Seq<char> {
    match level {
        LogLevel::Error => "[ERROR]: "@,
        LogLevel::Info => "[INFO]: "@,
        LogLevel::Debug => "[DEBUG]: "@,
    }
}

fn level_tag_str(level: LogLevel) -> (r: &'static str)
    ensures
        r@ == level_tag(level),
{
    match level {
        LogLevel::Error => "[ERROR]: ",
        LogLevel::Info => "[INFO]: ",
        LogLevel::Debug => "[DEBUG]: ",
    }
}

/// The one shape every log line has: the timestamp, the level tag, then the
/// message text, with nothing between or after.
pub open spec fn log_line(timestamp: Seq<char>, level: LogLevel, msg: Seq<char>) -> Seq<char> {
    timestamp + level_tag(level) + msg
}

/// Renders one log line from its three parts.
pub fn format_log_line(timestamp: &str, level: LogLevel, msg: &str) -> (r: String)
    ensures
        r@ == log_line(timestamp@, level, msg@),
{
    let mut line = String::from_str(timestamp);
    line.append(level_tag_str(level));
    line.append(msg);
    line
}

/// The shape of a line relayed from a backend's captured output: the
/// timestamp, a separator, then the text as captured.
pub open spec fn relayed_line(timestamp: Seq<char>, text: Seq<char>) -> Seq<char> {
    timestamp + ": "@ + text
}

/// Renders one relayed backend line from its two parts.
pub fn format_relayed_line(timestamp: &str, text: &str) -> (r: String)
    ensures
        r@ == relayed_line(timestamp@, text@),
{
    let mut line = String::from_str(timestamp);
    line.append(": ");
    line.append(text);
    line
}

/// The sink between background producers and the polling consumer: the queue
/// endpoints, the configured level, and the append-only buffer of everything
/// drained so far.
pub struct DisplayBuffer {
    /// Every line drained so far, oldest first. Lines are appended and never
    /// dropped or rewritten.
    pub buffer: Vec<String>,
    /// Messages less serious than this are not published.
    log_level: LogLevel,
    /// The producer half: clone it into every backend that publishes lines.
    pub tx: Sender<String>,
    /// The consumer half; drained by `channel_recv`, nothing else reads it.
    rx: Receiver<String>,
}

impl DisplayBuffer {
    /// The drained lines, as the contracts see them.
    pub closed spec fn spec_buffer(&self) -> Seq<String> {
        self.buffer@
    }

    /// The configured level, as the contracts see it.
    pub closed spec fn spec_level(&self) -> LogLevel {
        self.log_level
    }

    /// The producer handle, as the contracts see it.
    pub closed spec fn spec_producer(&self) -> Sender<String> {
        self.tx
    }

    /// A fresh sink: an empty buffer over a fresh queue, filtering below
    /// `Info`.
    pub fn new() -> (r: DisplayBuffer)
        ensures
            r.spec_buffer() == Seq::<String>::empty(),
            r.spec_level() == LogLevel::Info,
    {
        let (tx, rx) = channel_new();
        DisplayBuffer { buffer: Vec::new(), log_level: LogLevel::Info, tx, rx }
    }

    /// Drains every line queued so far into the buffer, in arrival order.
    /// What was already drained stays exactly where it was: the old buffer is
    /// a prefix of the new one.
    pub fn channel_recv(&mut self)
        ensures
            old(self).spec_buffer().is_prefix_of(final(self).spec_buffer()),
            final(self).spec_level() == old(self).spec_level(),
            final(self).spec_producer() == old(self).spec_producer(),
    {
        let mut queued = take_queued_lines(&self.rx);
        self.buffer.append(&mut queued);
    }

    /// Publishes `log_line(now, Info, msg)` to the queue, when `Info` passes
    /// the configured level. The sink itself is left untouched; the line
    /// shows up in the buffer on a later drain.
    pub fn log_info(&mut self, msg: String)
        ensures
            *final(self) == *old(self),
    {
        self.log_at(LogLevel::Info, msg);
    }

    /// Publishes `log_line(now, Debug, msg)` to the queue, when `Debug`
    /// passes the configured level; at the default level it does not, and
    /// nothing is published.
    pub fn log_debug(&mut self, msg: String)
        ensures
            *final(self) == *old(self),
    {
        self.log_at(LogLevel::Debug, msg);
    }

    /// Publishes `log_line(now, Error, msg)` to the queue; errors pass every
    /// configured level.
    pub fn log_error(&mut self, msg: String)
        ensures
            *final(self) == *old(self),
    {
        self.log_at(LogLevel::Error, msg);
    }

    fn log_at(&mut self, level: LogLevel, msg: String)
        ensures
            *final(self) == *old(self),
    {
        if level_allows(self.log_level, level) {
            let stamp = local_timestamp();
            let line = format_log_line(stamp.as_str(), level, msg.as_str());
            send_line(&self.tx, line);
        }
    }
}

} // verus!
