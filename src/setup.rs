use vstd::prelude::*;

use crate::binding::{binding_for, has_native_listener, listener_binding_spec, NativeBinding, Platform};

verus! {

/// Where a plugin setup stands.
#[derive(Clone, Copy, Debug, PartialEq, Eq, Structural)]
pub enum SetupPhase {
    /// Setup has not been started.
    Pending,
    /// The native binding was requested and its outcome is not known yet.
    AwaitingBinding,
    /// Setup finished successfully.
    Succeeded,
    /// The native binding failed; the plugin is not active.
    Failed,
}

/// What the host glue must do after setup starts.
#[derive(Clone, Copy, Debug)]
pub enum SetupAction {
    /// Make the native binding call with these names, then report its outcome.
    Bind(NativeBinding),
    /// Nothing is to be bound; setup has succeeded.
    Done,
}

/// The abstract state of a setup: the platform, the phase and how many
/// native binding calls were requested.
pub struct SetupModel {
    pub platform: Platform,
    pub phase: SetupPhase,
    pub binding_calls: nat,
}

/// The state of a setup that has not been started.
pub open spec fn initial(p: Platform) -> SetupModel {
    SetupModel { platform: p, phase: SetupPhase::Pending, binding_calls: 0 }
}

/// The state after starting: on the listener's platform one binding call is
/// requested; elsewhere setup succeeds at once.
pub open spec fn start_step(s: SetupModel) -> SetupModel {
    if has_native_listener(s.platform) {
        SetupModel { phase: SetupPhase::AwaitingBinding, binding_calls: s.binding_calls + 1, ..s }
    } else {
        SetupModel { phase: SetupPhase::Succeeded, ..s }
    }
}

/// The action that starting from `s` hands to the host glue.
pub open spec fn start_action_spec(s: SetupModel, a: SetupAction) -> bool {
    if has_native_listener(s.platform) {
        a matches SetupAction::Bind(b) && listener_binding_spec(b)
    } else {
        a is Done
    }
}

/// The state after the binding call reported its outcome (`bound` when it
/// succeeded).
pub open spec fn finish_step(s: SetupModel, bound: bool) -> SetupModel {
    SetupModel { phase: if bound { SetupPhase::Succeeded } else { SetupPhase::Failed }, ..s }
}

/// The states that a setup on `p` passes through.
pub open spec fn reachable(p: Platform, s: SetupModel) -> bool {
    ||| s == initial(p)
    ||| s == start_step(initial(p))
    ||| (has_native_listener(p) && exists|bound: bool| s == finish_step(start_step(initial(p)), bound))
}

/// One run of a plugin's setup routine.
pub struct SetupSession {
    platform: Platform,
    phase: SetupPhase,
    binding_calls: u64,
}

impl View for SetupSession {
    type V = SetupModel;

    closed spec fn view(&self) -> SetupModel {
        SetupModel { platform: self.platform, phase: self.phase, binding_calls: self.binding_calls as nat }
    }
}

impl SetupSession {
    /// A session's state is one that its platform's setup passes through.
    pub open spec fn wf(&self) -> bool {
        reachable(self@.platform, self@)
    }

    /// Begins a setup on platform `p`.
    pub fn new(p: Platform) -> (r: SetupSession)
        ensures
            r.wf(),
            r@ == initial(p),
    {
        SetupSession { platform: p, phase: SetupPhase::Pending, binding_calls: 0 }
    }

    /// The platform the setup runs on.
    pub fn platform(&self) -> (r: Platform)
        ensures
            r == self@.platform,
    {
        self.platform
    }

    /// Where the setup stands.
    pub fn phase(&self) -> (r: SetupPhase)
        ensures
            r == self@.phase,
    {
        self.phase
    }

    /// How many native binding calls the setup has requested.
    pub fn binding_calls(&self) -> (r: u64)
        ensures
            r as nat == self@.binding_calls,
    {
        self.binding_calls
    }

    /// Starts the setup: returns the binding to make on the listener's
    /// platform, and `Done` elsewhere.
    pub fn start(&mut self) -> (r: SetupAction)
        requires
            old(self).wf(),
            old(self)@.phase == SetupPhase::Pending,
        ensures
            final(self).wf(),
            final(self)@ == start_step(old(self)@),
            start_action_spec(old(self)@, r),
    {
        match binding_for(self.platform) {
            Some(b) => {
                self.phase = SetupPhase::AwaitingBinding;
                self.binding_calls = self.binding_calls + 1;
                SetupAction::Bind(b)
            },
            None => {
                self.phase = SetupPhase::Succeeded;
                SetupAction::Done
            },
        }
    }

    /// Takes the outcome of the binding call and returns the setup's result:
    /// that same outcome, its error forwarded unchanged.
    pub fn finish_binding<E>(&mut self, outcome: Result<(), E>) -> (r: Result<(), E>)
        requires
            old(self).wf(),
            old(self)@.phase == SetupPhase::AwaitingBinding,
        ensures
            final(self).wf(),
            final(self)@ == finish_step(old(self)@, outcome is Ok),
            r == outcome,
    {
        self.phase = match &outcome {
            Ok(_) => SetupPhase::Succeeded,
            Err(_) => SetupPhase::Failed,
        };
        outcome
    }
}

/// On the listener's platform, starting setup requests exactly one binding
/// call, and the action handed out names the listener's package and class.
pub proof fn lemma_target_binds_listener_once(p: Platform, a: SetupAction)
    requires
        has_native_listener(p),
        start_action_spec(initial(p), a),
    ensures
        start_step(initial(p)) == (SetupModel { platform: p, phase: SetupPhase::AwaitingBinding, binding_calls: 1 }),
        a matches SetupAction::Bind(b) && listener_binding_spec(b),
{
}

/// On the listener's platform, the binding's outcome decides the setup:
/// success leaves it succeeded, failure leaves it failed, and either way no
/// call beyond the single binding call was requested.
pub proof fn lemma_binding_outcome_decides(p: Platform, bound: bool)
    requires
        has_native_listener(p),
    ensures
        finish_step(start_step(initial(p)), bound).phase == (if bound {
            SetupPhase::Succeeded
        } else {
            SetupPhase::Failed
        }),
        finish_step(start_step(initial(p)), bound).binding_calls == 1,
        finish_step(start_step(initial(p)), bound).platform == p,
{
}

/// On every other platform, setup requests no binding call and succeeds at
/// once.
pub proof fn lemma_other_platforms_never_bind(p: Platform, a: SetupAction)
    requires
        !has_native_listener(p),
    ensures
        start_step(initial(p)) == (SetupModel { platform: p, phase: SetupPhase::Succeeded, binding_calls: 0 }),
        start_action_spec(initial(p), a) <==> a is Done,
{
}

/// Setup starts at most once: every state a setup passes through, but the
/// first, has left the pending phase that `start` requires, and none has
/// requested more than one binding call.
pub proof fn lemma_setup_runs_once(p: Platform, s: SetupModel)
    requires
        reachable(p, s),
    ensures
        s.binding_calls <= 1,
        s != initial(p) ==> s.phase != SetupPhase::Pending,
        s.phase == SetupPhase::Pending ==> s == initial(p),
{
}

} // verus!
