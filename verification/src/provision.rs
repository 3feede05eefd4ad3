//! The provisioning flow: create a fresh actor (with payment), install
//! its code image, then start it — strictly in that order. A failure at
//! any step aborts the remaining steps and surfaces the first error,
//! keeping the identity of any actor already created; nothing is rolled
//! back or retried.
//!
//! The host performs the three calls; this module owns every decision:
//! which step to run next, and how each step's outcome advances the
//! flow.

use vstd::prelude::*;
use crate::actor::ActorId;
use crate::call::{CallError, CanisterSettings};

verus! {

/// The three steps of provisioning, in their fixed order.
#[derive(Clone, Copy, Debug, PartialEq, Eq, Structural)]
pub enum ProvisionStep {
    Create,
    Install,
    Start,
}

/// Where a provisioning flow stands.
#[derive(Debug, PartialEq, Eq)]
pub enum ProvisionStatus {
    /// The creation call has not been issued yet.
    AwaitingCreate,
    /// The actor exists; its code is not installed yet.
    AwaitingInstall { canister: ActorId },
    /// Code is installed; the actor is not started yet.
    AwaitingStart { canister: ActorId },
    /// All three steps succeeded.
    Complete { canister: ActorId },
    /// A step failed: which one, the actor created so far (if the
    /// creation step had already succeeded), and the step's error.
    Failed { step: ProvisionStep, created: Option<ActorId>, error: CallError },
}

/// The step to run next in a given status; `None` once the flow is
/// complete or has failed, so a failed flow never attempts a later
/// step.
pub open spec fn next_step_view(s: ProvisionStatus) -> Option<ProvisionStep> {
    match s {
        ProvisionStatus::AwaitingCreate => Some(ProvisionStep::Create),
        ProvisionStatus::AwaitingInstall { .. } => Some(ProvisionStep::Install),
        ProvisionStatus::AwaitingStart { .. } => Some(ProvisionStep::Start),
        ProvisionStatus::Complete { .. } => None,
        ProvisionStatus::Failed { .. } => None,
    }
}

/// The actor the flow has created so far, if any; reported even after
/// a failure of a later step.
pub open spec fn created_view(s: ProvisionStatus) -> Option<ActorId> {
    match s {
        ProvisionStatus::AwaitingCreate => None,
        ProvisionStatus::AwaitingInstall { canister } => Some(canister),
        ProvisionStatus::AwaitingStart { canister } => Some(canister),
        ProvisionStatus::Complete { canister } => Some(canister),
        ProvisionStatus::Failed { created, .. } => created,
    }
}

/// How the creation step's outcome advances the flow.
pub open spec fn on_create_view(s: ProvisionStatus, result: Result<ActorId, CallError>) -> ProvisionStatus
    recommends
        s is AwaitingCreate,
{
    match result {
        Ok(canister) => ProvisionStatus::AwaitingInstall { canister },
        Err(error) => ProvisionStatus::Failed {
            step: ProvisionStep::Create,
            created: None,
            error,
        },
    }
}

/// How the installation step's outcome advances the flow: on failure
/// the created actor's identity is kept in the error context.
pub open spec fn on_install_view(s: ProvisionStatus, result: Result<(), CallError>) -> ProvisionStatus
    recommends
        s is AwaitingInstall,
{
    match result {
        Ok(_) => ProvisionStatus::AwaitingStart { canister: s->AwaitingInstall_canister },
        Err(error) => ProvisionStatus::Failed {
            step: ProvisionStep::Install,
            created: Some(s->AwaitingInstall_canister),
            error,
        },
    }
}

/// How the start step's outcome finishes the flow.
pub open spec fn on_start_view(s: ProvisionStatus, result: Result<(), CallError>) -> ProvisionStatus
    recommends
        s is AwaitingStart,
{
    match result {
        Ok(_) => ProvisionStatus::Complete { canister: s->AwaitingStart_canister },
        Err(error) => ProvisionStatus::Failed {
            step: ProvisionStep::Start,
            created: Some(s->AwaitingStart_canister),
            error,
        },
    }
}

/// One provisioning flow: the request data fixed when the flow begins,
/// and the status that the three step outcomes advance.
#[derive(Debug)]
pub struct Provision {
    pub settings: CanisterSettings,
    pub cycles: u64,
    pub wasm_module: Vec<u8>,
    pub arg: Vec<u8>,
    pub status: ProvisionStatus,
}

impl Provision {
    /// Opens a flow: the settings, payment budget, code image and init
    /// arguments are fixed here; no call has been issued yet.
    pub fn begin(settings: CanisterSettings, cycles: u64, wasm_module: Vec<u8>, arg: Vec<u8>) -> (r:
        Provision)
        ensures
            r.settings == settings,
            r.cycles == cycles,
            r.wasm_module@ == wasm_module@,
            r.arg@ == arg@,
            r.status is AwaitingCreate,
    {
        Provision { settings, cycles, wasm_module, arg, status: ProvisionStatus::AwaitingCreate }
    }

    /// The step the host must run next, or `None` when the flow is
    /// over: a failed flow never attempts a later step.
    pub fn next_step(&self) -> (r: Option<ProvisionStep>)
        ensures
            r == next_step_view(self.status),
    {
        match &self.status {
            ProvisionStatus::AwaitingCreate => Some(ProvisionStep::Create),
            ProvisionStatus::AwaitingInstall { .. } => Some(ProvisionStep::Install),
            ProvisionStatus::AwaitingStart { .. } => Some(ProvisionStep::Start),
            ProvisionStatus::Complete { .. } => None,
            ProvisionStatus::Failed { .. } => None,
        }
    }

    /// The actor created so far, if any; still reported after a later
    /// step has failed.
    pub fn created_actor(&self) -> (r: Option<ActorId>)
        ensures
            r == created_view(self.status),
    {
        match &self.status {
            ProvisionStatus::AwaitingCreate => None,
            ProvisionStatus::AwaitingInstall { canister } => Some(*canister),
            ProvisionStatus::AwaitingStart { canister } => Some(*canister),
            ProvisionStatus::Complete { canister } => Some(*canister),
            ProvisionStatus::Failed { created, .. } => *created,
        }
    }

    /// Feeds the creation call's outcome into the flow.
    pub fn on_create(&mut self, result: Result<ActorId, CallError>)
        requires
            old(self).status is AwaitingCreate,
        ensures
            final(self).status == on_create_view(old(self).status, result),
            final(self).settings == old(self).settings,
            final(self).cycles == old(self).cycles,
            final(self).wasm_module == old(self).wasm_module,
            final(self).arg == old(self).arg,
    {
        match result {
            Ok(canister) => {
                self.status = ProvisionStatus::AwaitingInstall { canister };
            },
            Err(error) => {
                self.status = ProvisionStatus::Failed {
                    step: ProvisionStep::Create,
                    created: None,
                    error,
                };
            },
        }
    }

    /// Feeds the installation call's outcome into the flow. On failure
    /// the created actor's identity stays in the error context, and the
    /// start step is never attempted.
    pub fn on_install(&mut self, result: Result<(), CallError>)
        requires
            old(self).status is AwaitingInstall,
        ensures
            final(self).status == on_install_view(old(self).status, result),
            final(self).settings == old(self).settings,
            final(self).cycles == old(self).cycles,
            final(self).wasm_module == old(self).wasm_module,
            final(self).arg == old(self).arg,
    {
        let canister = match &self.status {
            ProvisionStatus::AwaitingInstall { canister } => *canister,
            _ => {
                proof {
                    assert(false);
                }
                ActorId { key: 0 }
            },
        };
        match result {
            Ok(_) => {
                self.status = ProvisionStatus::AwaitingStart { canister };
            },
            Err(error) => {
                self.status = ProvisionStatus::Failed {
                    step: ProvisionStep::Install,
                    created: Some(canister),
                    error,
                };
            },
        }
    }

    /// Feeds the start call's outcome into the flow.
    pub fn on_start(&mut self, result: Result<(), CallError>)
        requires
            old(self).status is AwaitingStart,
        ensures
            final(self).status == on_start_view(old(self).status, result),
            final(self).settings == old(self).settings,
            final(self).cycles == old(self).cycles,
            final(self).wasm_module == old(self).wasm_module,
            final(self).arg == old(self).arg,
    {
        let canister = match &self.status {
            ProvisionStatus::AwaitingStart { canister } => *canister,
            _ => {
                proof {
                    assert(false);
                }
                ActorId { key: 0 }
            },
        };
        match result {
            Ok(_) => {
                self.status = ProvisionStatus::Complete { canister };
            },
            Err(error) => {
                self.status = ProvisionStatus::Failed {
                    step: ProvisionStep::Start,
                    created: Some(canister),
                    error,
                };
            },
        }
    }
}

} // verus!
