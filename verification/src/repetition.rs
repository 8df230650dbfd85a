//! Why a call does not see what earlier calls have done.
//!
//! A host keeps the state of its `env` module from call to call, and the instance that it made last
//! until it makes another one. What a call finds of that is shown to make no difference.
use crate::call::{
    memory_after_injection, next, next_on_allocation, next_on_memory, pending, ActionOutcomeView,
    CallActionView, CallEventView, CallStageView, CallStepView, CallView, EnvReset, ExecutorLookup,
    InstanceExport,
};
use crate::call_laws::{stages_before, start};
use crate::error::ErrorView;
use crate::value::RuntimeValue;
use vstd::prelude::*;

verus! {

/// How a guest and the allocator of its host behave in a call. `I` is what an instance holds in its
/// memory, its globals and its tables; `A` is what an allocator keeps for itself.
///
/// A function that is deterministic behaves the same in each call. Another one may behave otherwise
/// every time.
#[verifier::reject_recursive_types(I)]
#[verifier::reject_recursive_types(A)]
pub struct Guest<I, A, H> {
    /// The instance that instantiating the guest gives, if it can be instantiated.
    pub fresh: Result<I, Seq<char>>,
    /// What an instance exports under a name.
    pub look_up: spec_fn(I, Seq<char>) -> Option<InstanceExport>,
    /// What becomes of an instance whose memory is to grow by a number of pages.
    pub grow: spec_fn(I, u32) -> (Option<u32>, I),
    /// The memory of an instance.
    pub memory: spec_fn(I) -> Seq<u8>,
    /// An instance with its memory overwritten.
    pub with_memory: spec_fn(I, Seq<u8>) -> I,
    /// What comes of invoking a function of an instance with some arguments.
    pub invoke: spec_fn(I, A, Seq<char>, Seq<RuntimeValue>) -> Invocation<I, A, H>,
    /// An allocator with its heap at a base.
    pub new_heap: spec_fn(u32) -> A,
    /// What comes of allocating a number of bytes in a memory.
    pub allocate: spec_fn(A, Seq<u8>, u32) -> (Result<u32, H>, A, Seq<u8>),
}

/// What comes of invoking a function.
pub struct Invocation<I, A, H> {
    /// How the function has ended.
    pub invoked: Result<ActionOutcomeView, Seq<char>>,
    /// The instance afterwards.
    pub instance: I,
    /// The allocator afterwards. A function that calls no host function leaves it as it is.
    pub heap: A,
    /// The error that a host function has left behind. A function that calls no host function
    /// leaves none.
    pub trap: Option<H>,
}

/// The state that is attached to the instance of the `env` module.
pub enum Env<A, H> {
    /// It is not that of an `env` module.
    NotEnv,
    /// The allocator of the executor state, if there is one, and the error that a host function
    /// left behind.
    State(Option<A>, Option<H>),
}

/// What a host keeps.
pub struct Host<I, A, H> {
    /// The instance that was made last.
    pub instance: Option<I>,
    /// The state of the `env` module.
    pub env: Env<A, H>,
}

/// What the host does when it is told to go on with a call, and what follows on its report.
pub open spec fn perform<I, A, H>(
    guest: Guest<I, A, H>,
    host: Host<I, A, H>,
    call: CallView,
) -> (Host<I, A, H>, CallStepView<H>) {
    let instance = host.instance->Some_0;
    match pending(call) {
        CallActionView::ClearGlobals => (host, next(call, CallEventView::GlobalsCleared)),
        CallActionView::Instantiate => match guest.fresh {
            Ok(fresh) => (
                Host { instance: Some(fresh), ..host },
                next(call, CallEventView::Instantiated(Ok(()))),
            ),
            Err(reason) => (host, next(call, CallEventView::Instantiated(Err(reason)))),
        },
        CallActionView::LookUp(name) => (
            host,
            next(call, CallEventView::Export((guest.look_up)(instance, name))),
        ),
        CallActionView::GrowMemory(pages) => {
            let (grown, instance) = (guest.grow)(instance, pages);
            (
                Host { instance: Some(instance), ..host },
                next(call, CallEventView::MemoryGrown(grown)),
            )
        },
        CallActionView::ResetEnvState(heap_base) => match host.env {
            Env::NotEnv => (host, next(call, CallEventView::EnvStateReset(EnvReset::NotEnv))),
            Env::State(_, trap) => (
                Host {
                    env: Env::State(
                        match heap_base {
                            Some(heap_base) => Some((guest.new_heap)(heap_base)),
                            None => None,
                        },
                        None,
                    ),
                    ..host
                },
                next(call, CallEventView::EnvStateReset(EnvReset::Reset(trap))),
            ),
        },
        CallActionView::FindExecutor => (
            host,
            next(
                call,
                CallEventView::Executor(
                    match host.env {
                        Env::NotEnv => ExecutorLookup::NotEnv,
                        Env::State(None, _) => ExecutorLookup::NoExecutor,
                        Env::State(Some(_), _) => ExecutorLookup::Found,
                    },
                ),
            ),
        ),
        CallActionView::Allocate(size) => {
            let (allocated, heap, memory) = (guest.allocate)(
                host.env->State_0->Some_0,
                (guest.memory)(instance),
                size,
            );
            let written = memory_after_injection(call, allocated, memory);
            (
                Host {
                    instance: Some((guest.with_memory)(instance, written)),
                    env: Env::State(Some(heap), host.env->State_1),
                },
                next_on_allocation(call, allocated, memory),
            )
        },
        CallActionView::Invoke(method, args) => {
            let invocation = (guest.invoke)(instance, host.env->State_0->Some_0, method, args);
            (
                Host {
                    instance: Some(invocation.instance),
                    env: Env::State(Some(invocation.heap), invocation.trap),
                },
                next(call, CallEventView::Invoked(invocation.invoked)),
            )
        },
        CallActionView::ReadMemory => (host, next_on_memory(call, (guest.memory)(instance))),
    }
}

/// Whatever a host does leads to the next stage or to the end of the call.
pub proof fn performing_goes_on<I, A, H>(guest: Guest<I, A, H>, host: Host<I, A, H>, call: CallView)
    ensures
        perform(guest, host, call).1 matches CallStepView::Perform(followed, _) ==> stages_before(
            followed.stage,
        ) == stages_before(call.stage) + 1,
{
}

/// What comes of a call, and what the host keeps after it.
pub open spec fn execute<I, A, H>(
    guest: Guest<I, A, H>,
    host: Host<I, A, H>,
    call: CallView,
) -> (Result<Seq<u8>, ErrorView<H>>, Host<I, A, H>)
    decreases 13 - stages_before(call.stage),
{
    proof {
        performing_goes_on(guest, host, call);
    }
    let (after, step) = perform(guest, host, call);
    match step {
        CallStepView::Perform(followed, _) => execute(guest, after, followed),
        CallStepView::Finished(result) => (result, after),
    }
}

/// Whether nothing that two hosts differ in can be seen from a stage on: the instance is a new one
/// once it was made, and the executor state is a new one once it was set.
spec fn alike<I, A, H>(a: Host<I, A, H>, b: Host<I, A, H>, stage: CallStageView) -> bool {
    &&& a.env is NotEnv <==> b.env is NotEnv
    &&& stages_before(stage) >= 2 ==> a.instance == b.instance
    &&& stages_before(stage) >= 6 ==> a.env == b.env
}

/// Hosts that are alike come to the same result.
proof fn alike_hosts_agree<I, A, H>(
    guest: Guest<I, A, H>,
    a: Host<I, A, H>,
    b: Host<I, A, H>,
    call: CallView,
)
    requires
        alike(a, b, call.stage),
    ensures
        execute(guest, a, call).0 == execute(guest, b, call).0,
    decreases 13 - stages_before(call.stage),
{
    performing_goes_on(guest, a, call);
    if let CallStepView::Perform(followed, _) = perform(guest, a, call).1 {
        alike_hosts_agree(
            guest,
            perform(guest, a, call).0,
            perform(guest, b, call).0,
            followed,
        );
    }
}

/// A call leaves the state of an `env` module where there was one, and none where there was none.
proof fn env_stays_env<I, A, H>(guest: Guest<I, A, H>, host: Host<I, A, H>, call: CallView)
    requires
        host.env is NotEnv ==> stages_before(call.stage) <= 6,
    ensures
        execute(guest, host, call).1.env is NotEnv <==> host.env is NotEnv,
    decreases 13 - stages_before(call.stage),
{
    performing_goes_on(guest, host, call);
    if let CallStepView::Perform(followed, _) = perform(guest, host, call).1 {
        env_stays_env(guest, perform(guest, host, call).0, followed);
    }
}

/// A call that was made.
#[verifier::reject_recursive_types(I)]
#[verifier::reject_recursive_types(A)]
pub struct MadeCall<I, A, H> {
    /// How the guest behaved in the call.
    pub guest: Guest<I, A, H>,
    /// The name of the function.
    pub method: Seq<char>,
    /// The input of the function.
    pub data: Seq<u8>,
    /// The number of pages by which the memory of the guest grew.
    pub heap_pages: u32,
}

/// What a host keeps after these calls, one after the other.
pub open spec fn after_calls<I, A, H>(
    host: Host<I, A, H>,
    calls: Seq<MadeCall<I, A, H>>,
) -> Host<I, A, H>
    decreases calls.len(),
{
    if calls.len() == 0 {
        host
    } else {
        let last = calls.last();
        execute(
            last.guest,
            after_calls(host, calls.drop_last()),
            start(last.method, last.data, last.heap_pages),
        ).1
    }
}

/// Any number of calls leaves the state of an `env` module where there was one, and none where
/// there was none.
pub proof fn calls_keep_env<I, A, H>(host: Host<I, A, H>, calls: Seq<MadeCall<I, A, H>>)
    ensures
        after_calls(host, calls).env is NotEnv <==> host.env is NotEnv,
    decreases calls.len(),
{
    if calls.len() > 0 {
        let last = calls.last();
        calls_keep_env(host, calls.drop_last());
        env_stays_env(
            last.guest,
            after_calls(host, calls.drop_last()),
            start(last.method, last.data, last.heap_pages),
        );
    }
}

/// A function that is deterministic gives the same result whenever it is called with the same input
/// and the same number of heap pages: before and after any other calls, of whatever functions, that
/// the host has made. Each call runs on a new instance and with a new executor state, and does not
/// see what earlier calls have left behind.
pub proof fn repeated_call_repeats_result<I, A, H>(
    guest: Guest<I, A, H>,
    host: Host<I, A, H>,
    calls: Seq<MadeCall<I, A, H>>,
    method: Seq<char>,
    data: Seq<u8>,
    heap_pages: u32,
)
    ensures
        execute(guest, after_calls(host, calls), start(method, data, heap_pages)).0 == execute(
            guest,
            host,
            start(method, data, heap_pages),
        ).0,
{
    calls_keep_env(host, calls);
    alike_hosts_agree(guest, after_calls(host, calls), host, start(method, data, heap_pages));
}

/// A call that is made again, right after it or after some other calls, gives the same result.
pub proof fn call_made_again_agrees<I, A, H>(
    guest: Guest<I, A, H>,
    host: Host<I, A, H>,
    between: Seq<MadeCall<I, A, H>>,
    method: Seq<char>,
    data: Seq<u8>,
    heap_pages: u32,
)
    ensures
        execute(
            guest,
            after_calls(execute(guest, host, start(method, data, heap_pages)).1, between),
            start(method, data, heap_pages),
        ).0 == execute(guest, host, start(method, data, heap_pages)).0,
{
    let call = start(method, data, heap_pages);
    let after = execute(guest, host, call).1;
    env_stays_env(guest, host, call);
    calls_keep_env(after, between);
    alike_hosts_agree(guest, after_calls(after, between), host, call);
}

} // verus!
