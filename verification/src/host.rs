//! Host-side configuration and the checks the host makes around each guest call.
use vstd::prelude::*;
use crate::abi::{spec_unpack_ret, unpack_ret};
use crate::error::{OffloadError, OffloadErrorModel, RuntimeError, RuntimeErrorModel};

verus! {

/// Whether each call gets a fresh guest instance or all calls share one.
#[derive(Clone, Copy, Debug, PartialEq, Eq, Structural)]
pub enum InstancePolicy {
    /// A fresh instance per call: guest state never leaks between calls.
    PerCall,
    /// One instance reused across calls until a call fails.
    Shared,
}

impl Default for InstancePolicy {
    fn default() -> (policy: Self)
        ensures
            policy == InstancePolicy::PerCall,
    {
        InstancePolicy::PerCall
    }
}

/// Which standard streams the guest inherits from the host process.
#[derive(Clone, Copy, Debug, Default)]
pub struct WasiConfig {
    pub inherit_stdin: bool,
    pub inherit_stdout: bool,
    pub inherit_stderr: bool,
}

impl WasiConfig {
    /// A configuration that inherits nothing.
    pub fn new() -> (config: Self)
        ensures
            !config.inherit_stdin,
            !config.inherit_stdout,
            !config.inherit_stderr,
    {
        WasiConfig { inherit_stdin: false, inherit_stdout: false, inherit_stderr: false }
    }

    pub fn inherit_stdin(self, yes: bool) -> (config: Self)
        ensures
            config == (WasiConfig { inherit_stdin: yes, ..self }),
    {
        let mut config = self;
        config.inherit_stdin = yes;
        config
    }

    pub fn inherit_stdout(self, yes: bool) -> (config: Self)
        ensures
            config == (WasiConfig { inherit_stdout: yes, ..self }),
    {
        let mut config = self;
        config.inherit_stdout = yes;
        config
    }

    pub fn inherit_stderr(self, yes: bool) -> (config: Self)
        ensures
            config == (WasiConfig { inherit_stderr: yes, ..self }),
    {
        let mut config = self;
        config.inherit_stderr = yes;
        config
    }

    /// Inherit both output streams; stdin is left as it was.
    pub fn inherit_output(self) -> (config: Self)
        ensures
            config == (WasiConfig { inherit_stdout: true, inherit_stderr: true, ..self }),
    {
        self.inherit_stdout(true).inherit_stderr(true)
    }
}


/// The length of an argument buffer as the guest's 32-bit ABI carries it.
pub fn argument_length(len: usize) -> (r: Result<u32, OffloadError>)
    ensures
        len <= u32::MAX ==> r is Ok && r->Ok_0 == len,
        len > u32::MAX ==> r is Err && r->Err_0@ == OffloadErrorModel::Runtime(
            RuntimeErrorModel::ArgumentsTooLarge,
        ),
{
    if len > 0xffff_ffffusize {
        Err(OffloadError::Runtime(RuntimeError::ArgumentsTooLarge))
    } else {
        Ok(len as u32)
    }
}

/// The buffer `[start, start + len)` a guest's packed return word names,
/// accepted only if it lies inside the guest's linear memory of
/// `memory_size` bytes.
pub fn guest_return_range(packed: u64, memory_size: usize) -> (r: Result<(usize, usize), OffloadError>)
    ensures
        ({
            let (ptr, len) = spec_unpack_ret(packed);
            &&& ptr + len <= memory_size ==> r == Ok::<(usize, usize), OffloadError>((ptr as usize, len as usize))
            &&& ptr + len > memory_size ==> r is Err && r->Err_0@ == OffloadErrorModel::Runtime(
                RuntimeErrorModel::ReturnOutOfBounds { ptr, len },
            )
        }),
{
    let (ptr, len) = unpack_ret(packed);
    let start = ptr as usize;
    match start.checked_add(len as usize) {
        Some(end) => {
            if end > memory_size {
                Err(OffloadError::Runtime(RuntimeError::ReturnOutOfBounds { ptr, len }))
            } else {
                Ok((start, len as usize))
            }
        },
        None => Err(OffloadError::Runtime(RuntimeError::ReturnOutOfBounds { ptr, len })),
    }
}

/// The guest instance a call runs on.
#[derive(Clone, Copy, Debug, PartialEq, Eq, Structural)]
pub enum InstanceChoice {
    /// A new instance used for this call alone.
    Fresh,
    /// The shared instance that earlier calls left behind.
    ReuseShared,
    /// A new instance that becomes the shared one.
    CreateShared,
}

/// Per-call policy always starts from a fresh instance; the shared policy
/// reuses the shared instance while there is one and creates it otherwise.
pub open spec fn spec_instance_for_call(policy: InstancePolicy, shared_alive: bool) -> InstanceChoice {
    match policy {
        InstancePolicy::PerCall => InstanceChoice::Fresh,
        InstancePolicy::Shared => if shared_alive {
            InstanceChoice::ReuseShared
        } else {
            InstanceChoice::CreateShared
        },
    }
}

/// Picks the instance the next call runs on, given whether a shared
/// instance is currently kept.
pub fn instance_for_call(policy: InstancePolicy, shared_alive: bool) -> (choice: InstanceChoice)
    ensures
        choice == spec_instance_for_call(policy, shared_alive),
{
    match policy {
        InstancePolicy::PerCall => InstanceChoice::Fresh,
        InstancePolicy::Shared => if shared_alive {
            InstanceChoice::ReuseShared
        } else {
            InstanceChoice::CreateShared
        },
    }
}

/// Under the shared policy the instance survives a call only if the call
/// succeeded (a trap may leave it in any state); a per-call call leaves the
/// shared slot as it was.
pub open spec fn spec_shared_kept(policy: InstancePolicy, shared_alive: bool, call_ok: bool) -> bool {
    match policy {
        InstancePolicy::PerCall => shared_alive,
        InstancePolicy::Shared => call_ok,
    }
}

/// Whether a shared instance is kept once a call has finished (`call_ok`
/// being whether it succeeded).
pub fn shared_kept_after_call(policy: InstancePolicy, shared_alive: bool, call_ok: bool) -> (kept: bool)
    ensures
        kept == spec_shared_kept(policy, shared_alive, call_ok),
{
    match policy {
        InstancePolicy::PerCall => shared_alive,
        InstancePolicy::Shared => call_ok,
    }
}

/// Per-call policy never lets guest state carry over: whatever the shared
/// slot holds, every call runs on a fresh instance.
pub proof fn lemma_per_call_is_always_fresh(shared_alive: bool)
    ensures
        spec_instance_for_call(InstancePolicy::PerCall, shared_alive) == InstanceChoice::Fresh,
{
}

/// Under the shared policy a successful call leaves its instance for the
/// next call, and a failed call makes the next call start on a new one.
pub proof fn lemma_shared_instance_survives_only_success(shared_alive: bool, call_ok: bool)
    ensures
        spec_instance_for_call(
            InstancePolicy::Shared,
            spec_shared_kept(InstancePolicy::Shared, shared_alive, call_ok),
        ) == (if call_ok {
            InstanceChoice::ReuseShared
        } else {
            InstanceChoice::CreateShared
        }),
{
}

} // verus!
