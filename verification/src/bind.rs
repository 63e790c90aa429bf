//! The one-shot binding of the adapter into the external logging facade.
//!
//! A process registers the adapter at most once: the first successful
//! initialization wins and is terminal. Afterwards only the interior
//! destination ever changes, through `replace_logger`, any number of
//! times and from any thread; the registration itself is never revoked.
//! The host's facade glue drives exactly this state machine: it calls an
//! `init*` entry point once at process start and hands every record it
//! receives thereafter to the bound holder.

use vstd::prelude::*;
use crate::sink::{Inner, Logger};

verus! {

/// The error of an initialization attempt that lost to an earlier one.
/// A second unconditional `init*` call is a programming error, reported
/// at the call site, never deferred.
#[derive(Clone, Copy, PartialEq, Eq, Structural, Debug)]
pub enum BindError {
    AlreadyRegistered,
}

/// The process-wide registration slot together with the holder it binds:
/// unset until one `init*` succeeds, set for the rest of the process's
/// life from then on.
pub struct Binding {
    registered: bool,
    logger: Logger,
}

/// How one initialization attempt moves a binding: it succeeds exactly
/// on an unregistered binding, a success registers it, and a refused
/// attempt changes nothing.
pub open spec fn init_transition(pre: Binding, post: Binding, accepted: bool) -> bool {
    &&& accepted <==> !pre.registered()
    &&& accepted ==> post.registered()
    &&& !accepted ==> post == pre
}

impl Binding {
    /// Whether an `init*` has already succeeded on this binding.
    pub closed spec fn registered(&self) -> bool {
        self.registered
    }

    /// A fresh, unregistered binding whose holder targets the default
    /// destination, standard output.
    pub fn new() -> (b: Binding)
        ensures
            !b.registered(),
    {
        Binding { registered: false, logger: Logger::new() }
    }

    /// Whether an `init*` has already succeeded on this binding.
    pub fn is_registered(&self) -> (r: bool)
        ensures
            r == self.registered(),
    {
        self.registered
    }

    /// The bound holder, through which every record is written.
    pub fn logger(&self) -> &Logger {
        &self.logger
    }
}

/// Registers the binding around the given destination: retargets the
/// holder to it and marks the one-shot slot taken. Fails, and leaves the
/// binding exactly as it was, when an earlier `init*` already succeeded.
pub fn init(binding: &mut Binding, destination: Inner) -> (r: Result<(), BindError>)
    ensures
        init_transition(*old(binding), *final(binding), r is Ok),
        r is Err ==> r == Result::<(), BindError>::Err(BindError::AlreadyRegistered),
{
    if binding.registered {
        Err(BindError::AlreadyRegistered)
    } else {
        binding.logger.set_inner(destination);
        binding.registered = true;
        Ok(())
    }
}

/// Registers the binding with the console destination preset.
pub fn init_console(binding: &mut Binding) -> (r: Result<(), BindError>)
    ensures
        init_transition(*old(binding), *final(binding), r is Ok),
        r is Err ==> r == Result::<(), BindError>::Err(BindError::AlreadyRegistered),
{
    init(binding, Inner::Stdout)
}

/// Registers the binding with the error-console destination preset.
pub fn init_err_console(binding: &mut Binding) -> (r: Result<(), BindError>)
    ensures
        init_transition(*old(binding), *final(binding), r is Ok),
        r is Err ==> r == Result::<(), BindError>::Err(BindError::AlreadyRegistered),
{
    init(binding, Inner::Stderr)
}

/// Atomically retargets the already-registered holder to a new
/// destination. The registration itself is untouched: only the interior
/// destination changes, so this may run any number of times, from any
/// thread, concurrently with active logging.
pub fn replace_logger(binding: &Binding, destination: Inner)
    requires
        binding.registered(),
{
    binding.logger.set_inner(destination);
}

/// Registration is exactly once: after one accepted initialization,
/// every further attempt on the binding is refused and leaves it
/// unchanged.
pub proof fn lemma_init_exactly_once(
    b0: Binding,
    b1: Binding,
    b2: Binding,
    first: bool,
    second: bool,
)
    requires
        init_transition(b0, b1, first),
        init_transition(b1, b2, second),
        first,
    ensures
        !second,
        b2 == b1,
{
}

} // verus!
