//! The output destination and the holder that guards it.
//!
//! Exactly one destination is active at a time. `Logger` wraps it behind
//! `lazy_exclusive::LazyExclusive`, whose handle gives one thread at a
//! time exclusive access: a writer either completes its whole line
//! against the destination it observed at acquisition, or never touches
//! it, so two lines never interleave and a swap never tears a line.
//!
//! Write failures on a console are reported to the immediate caller and
//! otherwise dropped: a line may be lost, but a writer never panics while
//! holding the exclusive handle, so the handle's poisoned state is never
//! entered and one failed write cannot disable the logger for good.

use vstd::prelude::*;
use vstd::string::StringExecFns;
use std::io::Write;
use crate::level::Level;
use crate::render::{now_hms, render_record};

verus! {

/// An owned in-memory text destination: the custom alternative to the
/// two console streams. It keeps every line it was given, in order.
pub struct MemBuf {
    data: String,
}

impl View for MemBuf {
    type V = Seq<char>;

    closed spec fn view(&self) -> Seq<char> {
        self.data@
    }
}

impl MemBuf {
    /// An empty buffer.
    pub fn new() -> (r: MemBuf)
        ensures
            r@ == Seq::<char>::empty(),
    {
        MemBuf { data: String::new() }
    }

    /// Appends text to the buffer; nothing already held is changed.
    pub fn push_text(&mut self, text: &str)
        ensures
            final(self)@ == old(self)@ + text@,
    {
        self.data.append(text);
    }

    /// The whole text held so far.
    pub fn as_str(&self) -> (r: &str)
        ensures
            r@ == self@,
    {
        self.data.as_str()
    }

    /// A copy of the whole text held so far.
    pub fn contents(&self) -> (r: String)
        ensures
            r@ == self@,
    {
        self.data.clone()
    }
}

/// The active output destination: standard output, standard error, or an
/// owned in-memory buffer.
pub enum Inner {
    Stdout,
    Stderr,
    Buffer(MemBuf),
}

impl Default for Inner {
    /// The destination used when none was chosen: standard output.
    fn default() -> (r: Self)
        ensures
            r is Stdout,
    {
        Inner::Stdout
    }
}

/// Relies on `std::io::Stdout::write_all` (via `std::io::stdout`): the
/// whole line is handed to standard output; the result reports whether
/// the write succeeded. Nothing else is observable from inside the
/// process, so nothing more is stated.
#[verifier::external_body]
fn write_stdout(line: &str) -> (ok: bool) {
    std::io::stdout().write_all(line.as_bytes()).is_ok()
}

/// Relies on `std::io::Stderr::write_all` (via `std::io::stderr`): as
/// `write_stdout`, for standard error.
#[verifier::external_body]
fn write_stderr(line: &str) -> (ok: bool) {
    std::io::stderr().write_all(line.as_bytes()).is_ok()
}

/// Relies on `std::io::Stdout::flush` (via `std::io::stdout`): buffered
/// bytes are pushed out; the result reports whether that succeeded.
#[verifier::external_body]
fn flush_stdout() -> (ok: bool) {
    std::io::stdout().flush().is_ok()
}

/// Relies on `std::io::Stderr::flush` (via `std::io::stderr`): as
/// `flush_stdout`, for standard error.
#[verifier::external_body]
fn flush_stderr() -> (ok: bool) {
    std::io::stderr().flush().is_ok()
}

/// Writes one rendered line to the given destination. A buffer keeps the
/// line whole at its end and never fails; a console destination is left
/// as it was and the result reports whether the stream accepted the
/// line.
pub fn write_to(dest: &mut Inner, line: &str) -> (ok: bool)
    ensures
        *old(dest) is Buffer ==> *final(dest) is Buffer
            && (*final(dest))->Buffer_0@ == (*old(dest))->Buffer_0@ + line@
            && ok,
        !(*old(dest) is Buffer) ==> *final(dest) == *old(dest),
{
    match dest {
        Inner::Stdout => write_stdout(line),
        Inner::Stderr => write_stderr(line),
        Inner::Buffer(buffer) => {
            buffer.push_text(line);
            true
        },
    }
}

/// Flushes the given destination: best effort on a console stream, a
/// no-op on a buffer, which holds its text unbuffered. The destination
/// itself is never changed.
pub fn flush_dest(dest: &mut Inner) -> (ok: bool)
    ensures
        *final(dest) == *old(dest),
{
    match dest {
        Inner::Stdout => flush_stdout(),
        Inner::Stderr => flush_stderr(),
        Inner::Buffer(_) => true,
    }
}

/// Replaces the value behind a slot with a new one and hands the old
/// value back.
fn exchange(slot: &mut Inner, new: Inner) -> (prev: Inner)
    ensures
        *final(slot) == new,
        prev == *old(slot),
{
    let mut taken = new;
    core::mem::swap(slot, &mut taken);
    taken
}

#[verifier::external_type_specification]
#[verifier::external_body]
#[verifier::reject_recursive_types(T)]
pub struct ExLazyExclusive<T>(lazy_exclusive::LazyExclusive<T>);

#[verifier::external_type_specification]
#[verifier::external_body]
#[verifier::reject_recursive_types(T)]
pub struct ExMut<'a, T>(lazy_exclusive::Mut<'a, T>);

/// Relies on `lazy_exclusive::LazyExclusive::new`: a fresh holder cell
/// around the given value, no I/O performed.
pub assume_specification<T>[ lazy_exclusive::LazyExclusive::<T>::new ](
    data: T,
) -> lazy_exclusive::LazyExclusive<T>;

/// Relies on `lazy_exclusive::LazyExclusive::wait`: blocks until no
/// other handle is held, then returns the one exclusive handle to the
/// cell's value. `wait` asserts that the cell was left in its unlocked
/// state; every holder in this crate releases its handle without
/// panicking, so under this crate's discipline the poisoned state is
/// never entered and `wait` always returns.
#[verifier::external_body]
fn wait_handle<'a>(cell: &'a lazy_exclusive::LazyExclusive<Inner>) -> (handle: lazy_exclusive::Mut<
    'a,
    Inner,
>) {
    cell.wait()
}

/// Relies on `lazy_exclusive::Mut`'s `DerefMut` impl: the handle
/// dereferences to the one value guarded by the cell it came from.
#[verifier::external_body]
fn handle_slot<'a, 'b>(handle: &'b mut lazy_exclusive::Mut<'a, Inner>) -> (slot: &'b mut Inner) {
    &mut **handle
}

/// The concurrency-safe holder of the one active destination. All access
/// goes through the exclusive handle: writers never interleave, a swap
/// is atomic with respect to writers in flight, and no caller can reach
/// the destination outside that discipline.
pub struct Logger {
    inner: lazy_exclusive::LazyExclusive<Inner>,
}

impl Default for Logger {
    /// A holder over the default destination, standard output.
    fn default() -> Self {
        Logger::new()
    }
}

impl Logger {
    /// A holder whose active destination is standard output; no I/O is
    /// performed yet.
    pub fn new() -> Self {
        Logger { inner: lazy_exclusive::LazyExclusive::new(Inner::Stdout) }
    }

    /// Atomically replaces the active destination, handing the previous
    /// one back. A write in flight completes wholly against whichever
    /// destination it observed at acquisition; the previous destination
    /// is not flushed on the way out — a caller who cares drains what
    /// `swap` returns.
    pub fn swap(&self, new: Inner) -> (prev: Inner) {
        let mut handle = wait_handle(&self.inner);
        let slot = handle_slot(&mut handle);
        exchange(slot, new)
    }

    /// Atomically replaces the active destination, discarding the
    /// previous one.
    pub fn set_inner(&self, inner: Inner) {
        let _ = self.swap(inner);
    }

    /// Acquires exclusive access and writes one rendered line to the
    /// active destination; the result reports whether the destination
    /// accepted it.
    pub fn write_line(&self, line: &str) -> (ok: bool) {
        let mut handle = wait_handle(&self.inner);
        let slot = handle_slot(&mut handle);
        write_to(slot, line)
    }

    /// Acquires exclusive access and flushes the active destination,
    /// best effort: a failure to flush is swallowed.
    pub fn flush(&self) {
        let mut handle = wait_handle(&self.inner);
        let slot = handle_slot(&mut handle);
        let _ = flush_dest(slot);
    }

    /// Per-record filtering is not this adapter's business: the facade's
    /// global threshold decides what reaches it, so every record that
    /// arrives is accepted.
    pub fn enabled(&self) -> (r: bool)
        ensures
            r,
    {
        true
    }

    /// Renders one record at the given time of day and writes the line
    /// through the holder. The line written is exactly
    /// `spec_line(level, spec_label(thread_name), h, m, s, message@)`;
    /// the result reports whether the destination accepted it.
    pub fn log_at(
        &self,
        level: Level,
        thread_name: Option<&str>,
        h: u8,
        m: u8,
        s: u8,
        message: &str,
    ) -> (ok: bool)
        requires
            h < 24,
            m < 60,
            s < 60,
    {
        let line = render_record(level, thread_name, h, m, s, message);
        self.write_line(line.as_str())
    }

    /// Renders one record at the current wall-clock time and writes the
    /// line through the holder.
    pub fn log(&self, level: Level, thread_name: Option<&str>, message: &str) -> (ok: bool) {
        let (h, m, s) = now_hms();
        self.log_at(level, thread_name, h, m, s, message)
    }
}

} // verus!
