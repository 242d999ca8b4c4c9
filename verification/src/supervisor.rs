//! The supervisor of one backend attempt: the shared handle that owns the
//! child-process reference and the published base URL, and the state machine
//! `NotStarted -> PortAllocated -> Spawned -> (Healthy | Failed) ->
//! Terminated` that every attempt follows.  The surrounding application
//! performs the OS work (bind, spawn, kill) and reports each outcome here.

use vstd::prelude::*;
use crate::errors::SupervisorError;
use crate::urls::{local_url_chars, normalized_url, BaseUrl};

verus! {

/// The fixed port of a developer-managed backend probed before spawning in
/// debug mode.
pub const DEV_SERVER_PORT: u16 = 3001;

/// The phase of one supervised attempt.
#[derive(Clone, Copy, Debug, PartialEq, Eq, Structural)]
pub enum Phase {
    NotStarted,
    PortAllocated,
    Spawned,
    Healthy,
    Failed,
    Terminated,
}

/// The shared, mutually-exclusive state of the supervisor: ownership of the
/// running child (as the token the application registered for it) and the
/// resolved base URL once known.  The application holds this behind its lock
/// and keeps the real process handle keyed by the token.
pub struct SupervisorHandle {
    pub child: Option<u64>,
    pub base_url: Option<BaseUrl>,
}

impl SupervisorHandle {
    /// An empty handle: no child, no URL.
    pub fn new() -> (r: SupervisorHandle)
        ensures
            r.child is None,
            r.base_url is None,
    {
        SupervisorHandle { child: None, base_url: None }
    }

    /// Whether a child is currently registered.
    pub fn has_child(&self) -> (r: bool)
        ensures
            r == (self.child is Some),
    {
        self.child.is_some()
    }

    /// Registers a just-spawned child.  Registering over a live child is the
    /// programming error the handle guards against, so a child may only be
    /// recorded while none is present.
    pub fn record_child(&mut self, child_id: u64)
        requires
            old(self).child is None,
        ensures
            final(self).child == Some(child_id),
            final(self).base_url == old(self).base_url,
    {
        self.child = Some(child_id);
    }

    /// Takes the registered child out, leaving none: the caller kills the
    /// process it stands for.  Taking from an empty handle yields `None`.
    pub fn take_child(&mut self) -> (r: Option<u64>)
        ensures
            r == old(self).child,
            final(self).child is None,
            final(self).base_url == old(self).base_url,
    {
        let r = self.child;
        self.child = None;
        r
    }
}

/// The state after a terminate call: no child, no URL, terminal phase.
pub open spec fn terminated_state(s: Supervisor) -> Supervisor {
    Supervisor {
        phase: Phase::Terminated,
        port: None,
        handle: SupervisorHandle { child: None, base_url: None },
    }
}

/// The supervisor of one attempt to obtain a running, healthy backend.
pub struct Supervisor {
    pub phase: Phase,
    pub port: Option<u16>,
    pub handle: SupervisorHandle,
}

impl Supervisor {
    /// The invariant every reachable state satisfies.  In particular: a URL
    /// is published only in the `Healthy` phase, and after a failure or a
    /// termination no child remains registered.
    pub open spec fn wf(&self) -> bool {
        match self.phase {
            Phase::NotStarted => self.handle.child is None && self.handle.base_url is None
                && self.port is None,
            Phase::PortAllocated => self.handle.child is None && self.handle.base_url is None
                && self.port is Some,
            Phase::Spawned => self.handle.child is Some && self.handle.base_url is None
                && self.port is Some,
            Phase::Healthy => self.handle.base_url is Some && self.handle.base_url->0.wf() && (
            self.handle.child is Some ==> self.port is Some && self.handle.base_url->0@
                == local_url_chars(self.port->0)),
            Phase::Failed => self.handle.child is None && self.handle.base_url is None,
            Phase::Terminated => self.handle.child is None && self.handle.base_url is None,
        }
    }

    /// A fresh attempt: nothing allocated, nothing spawned, nothing
    /// published.
    pub fn new() -> (r: Supervisor)
        ensures
            r.wf(),
            r.phase == Phase::NotStarted,
            r.handle.child is None,
            r.handle.base_url is None,
            r.port is None,
    {
        Supervisor { phase: Phase::NotStarted, port: None, handle: SupervisorHandle::new() }
    }

    /// Adopts an externally supplied, already validated base URL: no process
    /// is spawned and none will be managed.
    pub fn use_external_url(&mut self, url: BaseUrl)
        requires
            old(self).wf(),
            old(self).phase == Phase::NotStarted,
            url.wf(),
        ensures
            final(self).wf(),
            final(self).phase == Phase::Healthy,
            final(self).handle.base_url == Some(url),
            final(self).handle.child is None,
            final(self).port is None,
    {
        self.handle.base_url = Some(url);
        self.phase = Phase::Healthy;
    }

    /// Records the port the OS allocated for this attempt.
    pub fn on_port_allocated(&mut self, port: u16)
        requires
            old(self).wf(),
            old(self).phase == Phase::NotStarted,
        ensures
            final(self).wf(),
            final(self).phase == Phase::PortAllocated,
            final(self).port == Some(port),
            final(self).handle.child is None,
            final(self).handle.base_url is None,
    {
        self.port = Some(port);
        self.phase = Phase::PortAllocated;
    }

    /// Port allocation failed: the attempt is over before anything was
    /// spawned, and no child is left registered.
    pub fn on_allocation_failed(&mut self) -> (e: SupervisorError)
        requires
            old(self).wf(),
            old(self).phase == Phase::NotStarted,
        ensures
            final(self).wf(),
            final(self).phase == Phase::Failed,
            final(self).handle.child is None,
            final(self).handle.base_url is None,
            e == SupervisorError::IoFailure,
    {
        self.phase = Phase::Failed;
        SupervisorError::IoFailure
    }

    /// No static-asset directory qualified: the attempt is over before
    /// anything was spawned, and no child is left registered.
    pub fn on_assets_missing(&mut self) -> (e: SupervisorError)
        requires
            old(self).wf(),
            old(self).phase == Phase::PortAllocated,
        ensures
            final(self).wf(),
            final(self).phase == Phase::Failed,
            final(self).handle.child is None,
            final(self).handle.base_url is None,
            e == SupervisorError::AssetsMissing,
    {
        self.port = None;
        self.phase = Phase::Failed;
        SupervisorError::AssetsMissing
    }

    /// Records the spawned child under the shared handle.
    pub fn on_spawned(&mut self, child_id: u64)
        requires
            old(self).wf(),
            old(self).phase == Phase::PortAllocated,
        ensures
            final(self).wf(),
            final(self).phase == Phase::Spawned,
            final(self).handle.child == Some(child_id),
            final(self).handle.base_url is None,
            final(self).port == old(self).port,
    {
        self.handle.record_child(child_id);
        self.phase = Phase::Spawned;
    }

    /// The spawn itself failed: reported immediately, and no partial child
    /// handle is left registered.
    pub fn on_spawn_failed(&mut self) -> (e: SupervisorError)
        requires
            old(self).wf(),
            old(self).phase == Phase::PortAllocated,
        ensures
            final(self).wf(),
            final(self).phase == Phase::Failed,
            final(self).handle.child is None,
            final(self).handle.base_url is None,
            e == SupervisorError::SpawnFailure,
    {
        self.port = None;
        self.phase = Phase::Failed;
        SupervisorError::SpawnFailure
    }

    /// The health probe succeeded: only now is the base URL published, and
    /// the returned string is exactly the loopback URL of the allocated port.
    pub fn on_probe_success(&mut self) -> (url: String)
        requires
            old(self).wf(),
            old(self).phase == Phase::Spawned,
        ensures
            final(self).wf(),
            final(self).phase == Phase::Healthy,
            url@ == local_url_chars(old(self).port->0),
            final(self).handle.base_url is Some,
            final(self).handle.base_url->0@ == url@,
            final(self).handle.child == old(self).handle.child,
            final(self).port == old(self).port,
    {
        let port = self.port.unwrap();
        let base = BaseUrl::local(port);
        let url = base.as_string();
        self.handle.base_url = Some(base);
        self.phase = Phase::Healthy;
        url
    }

    /// The health probe exhausted its deadline: the just-spawned child is
    /// taken out for the caller to kill, the handle is cleared, and the
    /// attempt ends with `HealthCheckTimedOut`.
    pub fn on_probe_timeout(&mut self) -> (r: (Option<u64>, SupervisorError))
        requires
            old(self).wf(),
            old(self).phase == Phase::Spawned,
        ensures
            final(self).wf(),
            final(self).phase == Phase::Failed,
            r.0 == old(self).handle.child,
            r.0 is Some,
            r.1 == SupervisorError::HealthCheckTimedOut,
            final(self).handle.child is None,
            final(self).handle.base_url is None,
    {
        let child = self.handle.take_child();
        self.port = None;
        self.phase = Phase::Failed;
        (child, SupervisorError::HealthCheckTimedOut)
    }

    /// Tears the attempt down: takes the child (if any) out for the caller
    /// to kill and clears the handle.  Callable from any phase, never an
    /// error, and idempotent: a second call finds nothing and changes
    /// nothing.
    pub fn terminate(&mut self) -> (r: Option<u64>)
        requires
            old(self).wf(),
        ensures
            final(self).wf(),
            *final(self) == terminated_state(*old(self)),
            r == old(self).handle.child,
            final(self).phase == Phase::Terminated,
            final(self).handle.child is None,
            final(self).handle.base_url is None,
    {
        let child = self.handle.take_child();
        self.handle.base_url = None;
        self.port = None;
        self.phase = Phase::Terminated;
        child
    }
}

/// How an attempt begins, decided from the configured override and the
/// debug-mode flag.
pub enum StartRoute {
    /// An externally supplied, validated base URL: use it, spawn nothing.
    UseConfigured(BaseUrl),
    /// Debug mode without an override: probe the fixed development URL
    /// first, and spawn only if it is not healthy.
    ProbeDevFirst,
    /// No override, not debug: allocate, spawn and probe.
    SpawnLocal,
}

/// The fixed development base URL probed in debug mode.
pub fn dev_server_url() -> (r: BaseUrl)
    ensures
        r@ == local_url_chars(DEV_SERVER_PORT),
        r.wf(),
{
    BaseUrl::local(DEV_SERVER_PORT)
}

/// Decides how an attempt begins: a configured override that validates (and
/// is non-empty once normalized) wins and is adopted as supplied; otherwise
/// debug mode probes the development URL first; otherwise a local backend is
/// spawned.
pub fn choose_route(override_raw: Option<&String>, debug: bool) -> (r: StartRoute)
    ensures
        ({
            let norm = match override_raw {
                Some(raw) => normalized_url(raw@),
                None => None,
            };
            match norm {
                Some(u) => if u.len() > 0 {
                    r matches StartRoute::UseConfigured(b) && b@ == u && b.wf()
                } else {
                    r == (if debug {
                        StartRoute::ProbeDevFirst
                    } else {
                        StartRoute::SpawnLocal
                    })
                },
                None => r == (if debug {
                    StartRoute::ProbeDevFirst
                } else {
                    StartRoute::SpawnLocal
                }),
            }
        }),
{
    match override_raw {
        Some(raw) => match BaseUrl::from_config(raw.as_str()) {
            Some(b) => StartRoute::UseConfigured(b),
            None => if debug {
                StartRoute::ProbeDevFirst
            } else {
                StartRoute::SpawnLocal
            },
        },
        None => if debug {
            StartRoute::ProbeDevFirst
        } else {
            StartRoute::SpawnLocal
        },
    }
}

/// After any failed attempt no child remains registered: a subsequent
/// terminate call finds nothing to kill and is a no-op.
pub proof fn lemma_failure_leaves_no_child(s: Supervisor)
    requires
        s.wf(),
        s.phase == Phase::Failed,
    ensures
        s.handle.child is None,
{
}

/// A base URL is published only in the `Healthy` phase: no other component
/// can observe a URL before the health probe has succeeded for it, nor after
/// the attempt failed or was torn down.
pub proof fn lemma_url_only_when_healthy(s: Supervisor)
    requires
        s.wf(),
        s.handle.base_url is Some,
    ensures
        s.phase == Phase::Healthy,
{
}

/// Terminating twice has the same observable effect as terminating once: the
/// state after a second terminate equals the state after the first, and the
/// second call takes no child out.
pub proof fn lemma_terminate_idempotent(s: Supervisor)
    ensures
        terminated_state(terminated_state(s)) == terminated_state(s),
        terminated_state(s).handle.child is None,
        terminated_state(s).wf(),
{
}

} // verus!
