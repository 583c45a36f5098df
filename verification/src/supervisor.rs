//! The supervisor's state machine: the guarded record of "no process /
//! running with known address". The host shell holds it behind a lock and
//! drives a start in phases — consult the record, resolve and probe the
//! resources, spawn, then commit the outcome — so that every decision is
//! made here and every outside action (spawn, warm-up wait, kill, probes)
//! stays with the shell. Handles are modeled as tokens: each successful
//! launch is committed under a fresh token, so distinct spawns are
//! distinguishable.

use vstd::prelude::*;
use crate::address::{choose_local_ip, local_ip_view};
use crate::errors::ServerError;
use crate::info::ServerInfo;

verus! {

/// The fixed warm-up interval, in milliseconds: after a spawn, the shell
/// blocks this long before the start is committed, as a conservative
/// substitute for a readiness signal the server does not expose.
pub const WARMUP_MILLIS: u64 = 2000;

/// The outcome of the shell's launch attempt, handed back to the state
/// machine. A successful spawn also carries the outcome of the address
/// probe (nothing, when the probe failed).
pub enum LaunchEvent {
    Spawned { ip_candidate: Option<String> },
    Failed { reason: String },
}

/// The supervised process's lifecycle snapshot: a handle token and the
/// server's description, set and cleared together, plus the next token to
/// issue. Idle means no handle and no info; Running means both.
pub struct ServerState {
    pub handle: Option<u64>,
    pub info: Option<ServerInfo>,
    pub next_handle: u64,
}

/// One successful launch, committed: `post` records `info` under the token
/// that `pre` was about to issue, and the next token moves past it.
pub open spec fn spawn_step(pre: ServerState, post: ServerState, ip: Seq<char>, info: ServerInfo) -> bool {
    &&& post.handle == Some(pre.next_handle)
    &&& post.next_handle == pre.next_handle + 1
    &&& post.info == Some(info)
    &&& info.wf()
    &&& info.ip@ == ip
}

/// One stop, committed: `post` records nothing, and no token was spent.
pub open spec fn stop_step(pre: ServerState, post: ServerState) -> bool {
    &&& post.handle is None
    &&& post.info is None
    &&& post.next_handle == pre.next_handle
}

/// What a status query answers on `s`: the recorded info, or `NotRunning`.
pub open spec fn status_of(s: ServerState) -> Result<ServerInfo, ServerError> {
    match s.info {
        Some(info) => Ok(info),
        None => Err(ServerError::NotRunning),
    }
}

impl ServerState {
    /// Handle and info are set and cleared together, recorded info is
    /// well-formed, and a recorded handle was issued in the past.
    pub open spec fn wf(&self) -> bool {
        &&& self.handle is Some <==> self.info is Some
        &&& (self.info matches Some(info) ==> info.wf())
        &&& (self.handle matches Some(h) ==> h < self.next_handle)
    }

    /// No process is recorded.
    pub open spec fn is_idle(&self) -> bool {
        self.handle is None
    }

    /// A process and its description are recorded.
    pub open spec fn is_running(&self) -> bool {
        self.handle is Some
    }

    /// A fresh record: nothing running, no token issued yet.
    pub fn new() -> (s: ServerState)
        ensures
            s.wf(),
            s.is_idle(),
            s.next_handle == 0,
    {
        ServerState { handle: None, info: None, next_handle: 0 }
    }

    /// The idempotent fast path of a start: when a process is already
    /// recorded, answer with its description and change nothing — the
    /// single-instance guarantee. Only when this yields nothing may the
    /// shell resolve, probe and spawn.
    pub fn start_cached(&self) -> (r: Option<ServerInfo>)
        requires
            self.wf(),
        ensures
            r == self.info,
            r is Some <==> self.is_running(),
    {
        match &self.handle {
            Some(_) => match &self.info {
                Some(info) => Some(info.clone()),
                None => None,
            },
            None => None,
        }
    }

    /// Commits the shell's launch attempt on an idle record. A failed launch
    /// changes nothing and surfaces `LaunchFailed` with the shell's reason;
    /// a successful one records the description built from the address
    /// probe's outcome under a fresh token and returns that description.
    pub fn start_complete(&mut self, ev: LaunchEvent) -> (r: Result<ServerInfo, ServerError>)
        requires
            old(self).wf(),
            old(self).is_idle(),
            old(self).next_handle < u64::MAX,
        ensures
            final(self).wf(),
            (ev matches LaunchEvent::Failed { reason } ==> {
                &&& *final(self) == *old(self)
                &&& r == Err::<ServerInfo, ServerError>((ServerError::LaunchFailed { reason }))
            }),
            (ev matches LaunchEvent::Spawned { ip_candidate } ==> r matches Ok(info)
                && spawn_step(*old(self), *final(self), local_ip_view(ip_candidate), info)
                && final(self).info == Some(info)),
    {
        match ev {
            LaunchEvent::Failed { reason } => Err(ServerError::LaunchFailed { reason }),
            LaunchEvent::Spawned { ip_candidate } => {
                let ip = choose_local_ip(ip_candidate);
                let info = ServerInfo::new(ip);
                let id = self.next_handle;
                self.handle = Some(id);
                self.next_handle = id + 1;
                self.info = Some(info.clone());
                Ok(info)
            },
        }
    }

    /// Stops the supervised process: clears handle and info unconditionally
    /// and reports which handle (if any) the shell must terminate. Never
    /// fails; on an idle record it is a no-op.
    pub fn stop_server(&mut self) -> (prev: Option<u64>)
        requires
            old(self).wf(),
        ensures
            final(self).is_idle(),
            stop_step(*old(self), *final(self)),
            final(self).wf(),
            prev == old(self).handle,
            old(self).is_idle() ==> *final(self) == *old(self),
    {
        let prev = self.handle;
        self.handle = None;
        self.info = None;
        prev
    }

    /// Answers a status query: a copy of the recorded description, or
    /// `NotRunning`. Never mutates the record.
    pub fn get_server_info(&self) -> (r: Result<ServerInfo, ServerError>)
        ensures
            r == status_of(*self),
    {
        match &self.info {
            Some(info) => Ok(info.clone()),
            None => Err(ServerError::NotRunning),
        }
    }
}

impl Default for ServerState {
    /// Same as `new`: a fresh idle record.
    fn default() -> (s: Self)
        ensures
            s.wf(),
            s.is_idle(),
            s.next_handle == 0,
    {
        ServerState::new()
    }
}

/// Idempotent start: once a start has committed, a second start without an
/// intervening stop is answered from the record with the identical info, and
/// exactly one token was spent — one spawned process in all.
pub proof fn lemma_start_idempotent(pre: ServerState, post: ServerState, ip: Seq<char>, info: ServerInfo)
    requires
        pre.wf(),
        pre.is_idle(),
        spawn_step(pre, post, ip, info),
    ensures
        post.wf(),
        post.is_running(),
        post.info == Some(info),
        post.next_handle == pre.next_handle + 1,
{
}

/// Stop is idempotent: a stop on an idle record commits to the very same
/// record — still idle, nothing else touched.
pub proof fn lemma_stop_idempotent(pre: ServerState, post: ServerState)
    requires
        pre.wf(),
        pre.is_idle(),
        stop_step(pre, post),
    ensures
        post == pre,
        post.is_idle(),
{
    assert(pre.info is None);
}

/// Start after stop spawns anew: the launches committed on either side of a
/// stop carry distinct handle tokens — two distinct spawn invocations.
pub proof fn lemma_restart_spawns_anew(
    s0: ServerState,
    s1: ServerState,
    s2: ServerState,
    s3: ServerState,
    ip1: Seq<char>,
    ip2: Seq<char>,
    info1: ServerInfo,
    info2: ServerInfo,
)
    requires
        s0.wf(),
        s0.is_idle(),
        spawn_step(s0, s1, ip1, info1),
        stop_step(s1, s2),
        spawn_step(s2, s3, ip2, info2),
    ensures
        s1.handle is Some,
        s3.handle is Some,
        s1.handle != s3.handle,
{
}

/// Status reflects state: on an idle record (such as a fresh one) the query
/// signals `NotRunning`; once a start has committed, it answers exactly the
/// info that the start returned.
pub proof fn lemma_status_reflects_state(pre: ServerState, post: ServerState, ip: Seq<char>, info: ServerInfo)
    requires
        pre.wf(),
        pre.is_idle(),
        spawn_step(pre, post, ip, info),
    ensures
        status_of(pre) == Err::<ServerInfo, ServerError>(ServerError::NotRunning),
        status_of(post) == Ok::<ServerInfo, ServerError>(info),
{
}

/// Address fallback: a start whose address probe yielded nothing still
/// commits, with a well-formed info whose IP is exactly the loopback
/// address.
pub proof fn lemma_start_with_fallback_address(pre: ServerState, post: ServerState, info: ServerInfo)
    requires
        pre.wf(),
        pre.is_idle(),
        spawn_step(pre, post, local_ip_view(None), info),
    ensures
        post.is_running(),
        info.wf(),
        info.ip@ == "127.0.0.1"@,
        info.port == 3016,
{
}

/// Serialized concurrent starts: of any number of start calls serialized
/// against a cold record, the first to commit spends the only token — one
/// spawned process — and every later call finds the record running and is
/// answered from it with that same info, changing nothing.
pub proof fn lemma_concurrent_starts_serialize(
    pre: ServerState,
    post: ServerState,
    ip: Seq<char>,
    info: ServerInfo,
)
    requires
        pre.wf(),
        pre.is_idle(),
        spawn_step(pre, post, ip, info),
    ensures
        post.wf(),
        post.next_handle == pre.next_handle + 1,
        post.is_running(),
        post.info == Some(info),
{
}

} // verus!
