//! The hook-installation state machine.
//!
//! Installation runs once per process: probe the tearing capability, create
//! the interceptors — each creation yields a trampoline to the original
//! implementation — and only when every required interceptor exists enable
//! them all in one batch. The creation and enabling themselves are calls into
//! the hooking engine and the graphics runtime and live outside this crate;
//! the order, the abort rule and what each outcome means are decided here.
//!
//! States: not installed, capability probed, hooks created, hooks enabled
//! (terminal for the process's life — there is no uninstall), and aborted.
//! The composition-creation and present interceptors are required: if either
//! cannot be created, installation aborts and the process continues with the
//! original, unpatched entry points. The surface-handle interceptor is
//! optional: its absence is recorded, never fatal.

use vstd::prelude::*;

verus! {

/// Progress of the one-shot installation, carrying the probed tearing
/// capability and the trampolines (as plain addresses) recorded so far.
#[derive(Clone, Copy, PartialEq, Eq, Debug)]
pub enum InstallState {
    NotInstalled,
    CapabilityProbed { tearing_supported: bool },
    HooksCreated {
        tearing_supported: bool,
        comp_original: usize,
        surface_original: Option<usize>,
        present_original: usize,
    },
    HooksEnabled {
        tearing_supported: bool,
        comp_original: usize,
        surface_original: Option<usize>,
        present_original: usize,
    },
    Aborted,
}

/// The dispatch-table slots this system intercepts.
#[derive(Clone, Copy, PartialEq, Eq, Structural, Debug)]
pub enum CallKind {
    CreateComposition,
    CreateSurfaceHandle,
    Present,
}

/// Where a call on a dispatch-table slot lands: the interceptor, which holds
/// a trampoline back to the slot's own entry, or that unmodified entry.
#[derive(Clone, Copy, PartialEq, Eq, Debug)]
pub enum DispatchTarget {
    Interceptor { original: usize },
    Original,
}

/// After the capability probe: tearing is supported only when the probe both
/// succeeded and reported true; a failed probe (`None`) leaves tearing
/// disabled and is not fatal.
pub open spec fn spec_probe_step(probe_result: Option<bool>) -> InstallState {
    InstallState::CapabilityProbed { tearing_supported: probe_result == Some(true) }
}

/// After hook creation: both required trampolines (composition creation and
/// present) must exist, else installation aborts; the optional surface-handle
/// trampoline is recorded as it came.
pub open spec fn spec_hooks_step(
    st: InstallState,
    comp: Option<usize>,
    surface: Option<usize>,
    present: Option<usize>,
) -> InstallState {
    match st {
        InstallState::CapabilityProbed { tearing_supported } => match (comp, present) {
            (Some(c), Some(p)) => InstallState::HooksCreated {
                tearing_supported,
                comp_original: c,
                surface_original: surface,
                present_original: p,
            },
            _ => InstallState::Aborted,
        },
        _ => st,
    }
}

/// After the batch enable: created hooks become enabled, all at once; any
/// other state is left as it is.
pub open spec fn spec_enable_step(st: InstallState) -> InstallState {
    match st {
        InstallState::HooksCreated {
            tearing_supported,
            comp_original,
            surface_original,
            present_original,
        } => InstallState::HooksEnabled {
            tearing_supported,
            comp_original,
            surface_original,
            present_original,
        },
        _ => st,
    }
}

/// The state a whole installation run ends in, from the probe outcome and the
/// three hook-creation outcomes.
pub open spec fn spec_install_run(
    probe_result: Option<bool>,
    comp: Option<usize>,
    surface: Option<usize>,
    present: Option<usize>,
) -> InstallState {
    spec_enable_step(spec_hooks_step(spec_probe_step(probe_result), comp, surface, present))
}

/// Which code a call on an intercepted slot reaches in a given state: the
/// interceptor only once hooks are enabled and only where a trampoline was
/// recorded; everywhere else the unmodified original.
pub open spec fn spec_dispatch(st: InstallState, kind: CallKind) -> DispatchTarget {
    match st {
        InstallState::HooksEnabled {
            comp_original,
            surface_original,
            present_original,
            ..
        } => match kind {
            CallKind::CreateComposition => DispatchTarget::Interceptor { original: comp_original },
            CallKind::CreateSurfaceHandle => match surface_original {
                Some(t) => DispatchTarget::Interceptor { original: t },
                None => DispatchTarget::Original,
            },
            CallKind::Present => DispatchTarget::Interceptor { original: present_original },
        },
        _ => DispatchTarget::Original,
    }
}

/// Records the capability probe's outcome.
pub fn probe_step(st: InstallState, probe_result: Option<bool>) -> (r: InstallState)
    requires
        st is NotInstalled,
    ensures
        r == spec_probe_step(probe_result),
{
    let tearing_supported = match probe_result {
        Some(true) => true,
        _ => false,
    };
    InstallState::CapabilityProbed { tearing_supported }
}

/// Records the three hook-creation outcomes, aborting unless both required
/// trampolines exist.
pub fn hooks_step(
    st: InstallState,
    comp: Option<usize>,
    surface: Option<usize>,
    present: Option<usize>,
) -> (r: InstallState)
    requires
        st is CapabilityProbed,
    ensures
        r == spec_hooks_step(st, comp, surface, present),
{
    match st {
        InstallState::CapabilityProbed { tearing_supported } => match (comp, present) {
            (Some(c), Some(p)) => InstallState::HooksCreated {
                tearing_supported,
                comp_original: c,
                surface_original: surface,
                present_original: p,
            },
            _ => InstallState::Aborted,
        },
        _ => st,
    }
}

/// Enables all created hooks in one batch.
pub fn enable_step(st: InstallState) -> (r: InstallState)
    requires
        st is HooksCreated,
    ensures
        r == spec_enable_step(st),
{
    match st {
        InstallState::HooksCreated {
            tearing_supported,
            comp_original,
            surface_original,
            present_original,
        } => InstallState::HooksEnabled {
            tearing_supported,
            comp_original,
            surface_original,
            present_original,
        },
        _ => st,
    }
}

/// One whole installation run's decisions, from the probe outcome and the
/// three hook-creation outcomes.
pub fn install_run(
    probe_result: Option<bool>,
    comp: Option<usize>,
    surface: Option<usize>,
    present: Option<usize>,
) -> (r: InstallState)
    ensures
        r == spec_install_run(probe_result, comp, surface, present),
{
    let st = probe_step(InstallState::NotInstalled, probe_result);
    let st = hooks_step(st, comp, surface, present);
    match st {
        InstallState::HooksCreated { .. } => enable_step(st),
        _ => st,
    }
}

/// Where a call on an intercepted slot lands in the given state.
pub fn entry_target(st: &InstallState, kind: CallKind) -> (t: DispatchTarget)
    ensures
        t == spec_dispatch(*st, kind),
{
    match st {
        InstallState::HooksEnabled { comp_original, surface_original, present_original, .. } => {
            match kind {
                CallKind::CreateComposition => DispatchTarget::Interceptor {
                    original: *comp_original,
                },
                CallKind::CreateSurfaceHandle => match surface_original {
                    Some(t) => DispatchTarget::Interceptor { original: *t },
                    None => DispatchTarget::Original,
                },
                CallKind::Present => DispatchTarget::Interceptor { original: *present_original },
            }
        },
        _ => DispatchTarget::Original,
    }
}

/// Law: whatever an installation run's outcomes, a patched entry point
/// reaches either an interceptor holding the trampoline recorded for exactly
/// that slot, or the unmodified original — never a half-patched state. Hooks
/// are enabled exactly when both required trampolines exist; in every other
/// outcome each slot still reaches its original.
pub proof fn lemma_never_half_patched(
    probe_result: Option<bool>,
    comp: Option<usize>,
    surface: Option<usize>,
    present: Option<usize>,
    kind: CallKind,
)
    ensures
        ({
            let st = spec_install_run(probe_result, comp, surface, present);
            &&& (st is HooksEnabled <==> (comp is Some && present is Some))
            &&& (!(st is HooksEnabled) ==> spec_dispatch(st, kind) is Original)
            &&& (spec_dispatch(st, kind) matches DispatchTarget::Interceptor { original } ==> {
                &&& st is HooksEnabled
                &&& (kind is CreateComposition ==> comp == Some(original))
                &&& (kind is CreateSurfaceHandle ==> surface == Some(original))
                &&& (kind is Present ==> present == Some(original))
            })
        }),
{
}

} // verus!
