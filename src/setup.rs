use vstd::prelude::*;

use crate::config::{Platform, MAIN_WINDOW_LABEL, SHORTCUT};

verus! {

/// What became of one window-attribute mutation during the setup pass.
#[derive(Clone, Copy, Debug, PartialEq, Eq, Structural)]
pub enum AttrOutcome {
    NotAttempted,
    Applied,
    Failed,
}

/// Where the setup pass stands: each phase waits for the outcome of one operation.
#[derive(Clone, Copy, Debug, PartialEq, Eq, Structural)]
pub enum Phase {
    Resolving,
    Workspaces,
    Protection,
    Registering,
    Finished,
}

/// The operation the host must perform next, and report the outcome of.
#[derive(Clone, Copy, Debug, PartialEq, Eq, Structural)]
pub enum Action {
    /// Look up the window labelled `MAIN_WINDOW_LABEL`.
    ResolveWindow,
    /// Make the window visible on all virtual workspaces.
    SetVisibleOnAllWorkspaces,
    /// Protect the window's contents from screen capture.
    SetContentProtected,
    /// Register the global shortcut `SHORTCUT`.
    RegisterShortcut,
    /// Nothing is left to do: the pass is over, see `SetupPass::result`.
    Finish,
}

/// Why startup cannot proceed.
#[derive(Debug)]
pub enum SetupError {
    /// No window carries the expected label.
    WindowNotFound,
    /// The operating system refused the global shortcut, for the given cause.
    ShortcutRejected(String),
}

/// The abstract state of a setup pass.
pub struct SetupView {
    pub platform: Platform,
    pub phase: Phase,
    pub workspaces: AttrOutcome,
    pub protection: AttrOutcome,
    pub registered: bool,
    pub diagnostics: Seq<Seq<char>>,
    pub error: Option<SetupError>,
}

pub open spec fn workspaces_message() -> Seq<char> {
    "Failed to set window visible on all workspaces"@
}

pub open spec fn protection_message() -> Seq<char> {
    "Failed to set content protection"@
}

/// A diagnostic line: the condition, then the underlying cause.
pub open spec fn diagnostic(condition: Seq<char>, cause: Seq<char>) -> Seq<char> {
    condition + ": "@ + cause
}

/// The state in which every pass begins.
pub open spec fn start(platform: Platform) -> SetupView {
    SetupView {
        platform,
        phase: Phase::Resolving,
        workspaces: AttrOutcome::NotAttempted,
        protection: AttrOutcome::NotAttempted,
        registered: false,
        diagnostics: Seq::empty(),
        error: None,
    }
}

/// The operation that a phase waits for.
pub open spec fn action_of(phase: Phase) -> Action {
    match phase {
        Phase::Resolving => Action::ResolveWindow,
        Phase::Workspaces => Action::SetVisibleOnAllWorkspaces,
        Phase::Protection => Action::SetContentProtected,
        Phase::Registering => Action::RegisterShortcut,
        Phase::Finished => Action::Finish,
    }
}

/// The phase after the window was found: the workspace attribute exists on one platform only.
pub open spec fn first_attribute_phase(platform: Platform) -> Phase {
    if platform.spec_has_workspaces() {
        Phase::Workspaces
    } else {
        Phase::Protection
    }
}

pub open spec fn attr_outcome(r: Result<(), String>) -> AttrOutcome {
    if r is Ok {
        AttrOutcome::Applied
    } else {
        AttrOutcome::Failed
    }
}

/// The diagnostics after an attribute mutation with outcome `r`: a failure adds one line.
pub open spec fn note(
    diagnostics: Seq<Seq<char>>,
    condition: Seq<char>,
    r: Result<(), String>,
) -> Seq<Seq<char>> {
    match r {
        Ok(_) => diagnostics,
        Err(cause) => diagnostics.push(diagnostic(condition, cause@)),
    }
}

/// The state after the operation that `v` waits for had outcome `r`.
pub open spec fn after(v: SetupView, r: Result<(), String>) -> SetupView {
    match v.phase {
        Phase::Resolving => match r {
            Ok(_) => SetupView { phase: first_attribute_phase(v.platform), ..v },
            Err(_) => SetupView {
                phase: Phase::Finished,
                error: Some(SetupError::WindowNotFound),
                ..v
            },
        },
        Phase::Workspaces => SetupView {
            phase: Phase::Protection,
            workspaces: attr_outcome(r),
            diagnostics: note(v.diagnostics, workspaces_message(), r),
            ..v
        },
        Phase::Protection => SetupView {
            phase: Phase::Registering,
            protection: attr_outcome(r),
            diagnostics: note(v.diagnostics, protection_message(), r),
            ..v
        },
        Phase::Registering => match r {
            Ok(_) => SetupView { phase: Phase::Finished, registered: true, ..v },
            Err(cause) => SetupView {
                phase: Phase::Finished,
                error: Some(SetupError::ShortcutRejected(cause)),
                ..v
            },
        },
        Phase::Finished => v,
    }
}

/// The state after the outcomes `outs`, reported in order.
pub open spec fn run(v: SetupView, outs: Seq<Result<(), String>>) -> SetupView
    decreases outs.len(),
{
    if outs.len() == 0 {
        v
    } else {
        run(after(v, outs[0]), outs.drop_first())
    }
}

/// The operations performed while the outcomes `outs` are reported, in order.
pub open spec fn ops(v: SetupView, outs: Seq<Result<(), String>>) -> Seq<Action>
    decreases outs.len(),
{
    if outs.len() == 0 || v.phase is Finished {
        Seq::empty()
    } else {
        seq![action_of(v.phase)] + ops(after(v, outs[0]), outs.drop_first())
    }
}

/// The operations that remain from a phase when every one of them succeeds.
pub open spec fn plan(phase: Phase, platform: Platform) -> Seq<Action> {
    match phase {
        Phase::Resolving => if platform.spec_has_workspaces() {
            seq![
                Action::ResolveWindow,
                Action::SetVisibleOnAllWorkspaces,
                Action::SetContentProtected,
                Action::RegisterShortcut,
            ]
        } else {
            seq![Action::ResolveWindow, Action::SetContentProtected, Action::RegisterShortcut]
        },
        Phase::Workspaces => seq![
            Action::SetVisibleOnAllWorkspaces,
            Action::SetContentProtected,
            Action::RegisterShortcut,
        ],
        Phase::Protection => seq![Action::SetContentProtected, Action::RegisterShortcut],
        Phase::Registering => seq![Action::RegisterShortcut],
        Phase::Finished => Seq::empty(),
    }
}


/// Joins a condition and its underlying cause into one diagnostic line.
fn failure_line(condition: &str, cause: &String) -> (line: String)
    ensures
        line@ == diagnostic(condition@, cause@),
{
    let mut line = String::from_str(condition);
    line.append(": ");
    line.append(cause.as_str());
    line
}

/// One pass of the startup sequence: find the window, configure it, register the shortcut.
///
/// The host asks `next_action` what to do, does it, and hands the outcome to `on_outcome`,
/// until the action is `Action::Finish`.
pub struct SetupPass {
    platform: Platform,
    phase: Phase,
    workspaces: AttrOutcome,
    protection: AttrOutcome,
    registered: bool,
    diagnostics: Vec<String>,
    error: Option<SetupError>,
}

/// What a pass that succeeded leaves behind.
pub struct SetupReport {
    pub workspaces: AttrOutcome,
    pub protection: AttrOutcome,
    pub diagnostics: Vec<String>,
}

impl View for SetupPass {
    type V = SetupView;

    closed spec fn view(&self) -> SetupView {
        SetupView {
            platform: self.platform,
            phase: self.phase,
            workspaces: self.workspaces,
            protection: self.protection,
            registered: self.registered,
            diagnostics: self.diagnostics@.map_values(|d: String| d@),
            error: self.error,
        }
    }
}

impl SetupPass {
    pub fn new(platform: Platform) -> (pass: SetupPass)
        ensures
            pass@ == start(platform),
    {
        let pass = SetupPass {
            platform,
            phase: Phase::Resolving,
            workspaces: AttrOutcome::NotAttempted,
            protection: AttrOutcome::NotAttempted,
            registered: false,
            diagnostics: Vec::new(),
            error: None,
        };
        assert(pass@.diagnostics =~= Seq::empty());
        pass
    }

    pub fn phase(&self) -> (p: Phase)
        ensures
            p == self@.phase,
    {
        self.phase
    }

    pub fn is_finished(&self) -> (b: bool)
        ensures
            b == (self@.phase is Finished),
    {
        match self.phase {
            Phase::Finished => true,
            _ => false,
        }
    }

    /// The operation whose outcome the pass waits for.
    pub fn next_action(&self) -> (a: Action)
        ensures
            a == action_of(self@.phase),
    {
        match self.phase {
            Phase::Resolving => Action::ResolveWindow,
            Phase::Workspaces => Action::SetVisibleOnAllWorkspaces,
            Phase::Protection => Action::SetContentProtected,
            Phase::Registering => Action::RegisterShortcut,
            Phase::Finished => Action::Finish,
        }
    }

    /// Takes the outcome of the operation that `next_action` named, and returns the
    /// diagnostic line it gave rise to, if any.
    pub fn on_outcome(&mut self, r: Result<(), String>) -> (line: Option<String>)
        ensures
            final(self)@ == after(old(self)@, r),
            line is Some <==> (r is Err && (old(self)@.phase is Workspaces
                || old(self)@.phase is Protection)),
            match line {
                Some(l) => final(self)@.diagnostics == old(self)@.diagnostics.push(l@),
                None => final(self)@.diagnostics == old(self)@.diagnostics,
            },
    {
        match self.phase {
            Phase::Resolving => {
                match r {
                    Ok(_) => {
                        self.phase =
                            if self.platform.has_workspaces() {
                                Phase::Workspaces
                            } else {
                                Phase::Protection
                            };
                    },
                    Err(_) => {
                        self.phase = Phase::Finished;
                        self.error = Some(SetupError::WindowNotFound);
                    },
                }
                None
            },
            Phase::Workspaces => {
                self.phase = Phase::Protection;
                self.record(r, true)
            },
            Phase::Protection => {
                self.phase = Phase::Registering;
                self.record(r, false)
            },
            Phase::Registering => {
                self.phase = Phase::Finished;
                match r {
                    Ok(_) => {
                        self.registered = true;
                    },
                    Err(cause) => {
                        self.error = Some(SetupError::ShortcutRejected(cause));
                    },
                }
                None
            },
            Phase::Finished => None,
        }
    }

    /// Records the outcome of one attribute mutation: a failure is noted and never fatal.
    fn record(&mut self, r: Result<(), String>, workspaces: bool) -> (line: Option<String>)
        ensures
            final(self).platform == old(self).platform,
            final(self).phase == old(self).phase,
            final(self).registered == old(self).registered,
            final(self).error == old(self).error,
            workspaces ==> final(self).workspaces == attr_outcome(r),
            workspaces ==> final(self).protection == old(self).protection,
            !workspaces ==> final(self).protection == attr_outcome(r),
            !workspaces ==> final(self).workspaces == old(self).workspaces,
            final(self)@.diagnostics == note(
                old(self)@.diagnostics,
                if workspaces { workspaces_message() } else { protection_message() },
                r,
            ),
            line is Some <==> r is Err,
            match line {
                Some(l) => final(self)@.diagnostics == old(self)@.diagnostics.push(l@),
                None => final(self)@.diagnostics == old(self)@.diagnostics,
            },
    {
        let outcome = match r {
            Ok(_) => AttrOutcome::Applied,
            Err(_) => AttrOutcome::Failed,
        };
        if workspaces {
            self.workspaces = outcome;
        } else {
            self.protection = outcome;
        }
        match r {
            Ok(_) => None,
            Err(cause) => {
                let condition: &str = if workspaces {
                    "Failed to set window visible on all workspaces"
                } else {
                    "Failed to set content protection"
                };
                let line = failure_line(condition, &cause);
                let ghost d0 = self@.diagnostics;
                self.diagnostics.push(line.clone());
                assert(self@.diagnostics =~= d0.push(line@));
                Some(line)
            },
        }
    }

    /// Ends the pass: the report when startup may proceed, else the fatal error.
    pub fn finish(self) -> (r: Result<SetupReport, SetupError>)
        ensures
            match self@.error {
                Some(e) => r == Err::<SetupReport, SetupError>(e),
                None => r matches Ok(rep) && rep.workspaces == self@.workspaces
                    && rep.protection == self@.protection
                    && rep.diagnostics@.map_values(|d: String| d@) == self@.diagnostics,
            },
    {
        match self.error {
            Some(e) => Err(e),
            None => Ok(
                SetupReport {
                    workspaces: self.workspaces,
                    protection: self.protection,
                    diagnostics: self.diagnostics,
                },
            ),
        }
    }
}


/// The text of a fatal setup error.
pub open spec fn error_message(e: SetupError) -> Seq<char> {
    match e {
        SetupError::WindowNotFound => "No window labelled "@ + MAIN_WINDOW_LABEL@,
        SetupError::ShortcutRejected(cause) => diagnostic(
            "Failed to register global shortcut "@ + SHORTCUT@,
            cause@,
        ),
    }
}

impl SetupError {
    /// A description of the error, naming the underlying cause where there is one.
    pub fn message(&self) -> (m: String)
        ensures
            m@ == error_message(*self),
    {
        match self {
            SetupError::WindowNotFound => {
                let mut m = String::from_str("No window labelled ");
                m.append(MAIN_WINDOW_LABEL);
                m
            },
            SetupError::ShortcutRejected(cause) => {
                let mut condition = String::from_str("Failed to register global shortcut ");
                condition.append(SHORTCUT);
                failure_line(condition.as_str(), cause)
            },
        }
    }
}

proof fn lemma_finished_run(v: SetupView, outs: Seq<Result<(), String>>)
    requires
        v.phase is Finished,
    ensures
        run(v, outs) == v,
        ops(v, outs) == Seq::<Action>::empty(),
    decreases outs.len(),
{
    if outs.len() > 0 {
        lemma_finished_run(after(v, outs[0]), outs.drop_first());
    }
}

proof fn lemma_ops_follow_plan(v: SetupView, outs: Seq<Result<(), String>>)
    ensures
        ops(v, outs).is_prefix_of(plan(v.phase, v.platform)),
        outs.len() >= plan(v.phase, v.platform).len() ==> run(v, outs).phase is Finished,
    decreases outs.len(),
{
    if outs.len() == 0 || v.phase is Finished {
        if v.phase is Finished {
            lemma_finished_run(v, outs);
        }
    } else {
        let w = after(v, outs[0]);
        lemma_ops_follow_plan(w, outs.drop_first());
        let whole = plan(v.phase, v.platform);
        let rest = plan(w.phase, w.platform);
        assert(rest.is_prefix_of(whole.drop_first()));
        let tail = ops(w, outs.drop_first());
        assert(ops(v, outs) == seq![action_of(v.phase)] + tail);
        assert(ops(v, outs) =~= whole.subrange(0, ops(v, outs).len() as int));
    }
}

/// Whatever outcomes the host reports, each operation of the startup sequence is performed
/// at most once and in the planned order, and the pass is over once every planned operation
/// has reported.
pub proof fn lemma_each_operation_at_most_once(platform: Platform, outs: Seq<Result<(), String>>)
    ensures
        ops(start(platform), outs).is_prefix_of(plan(Phase::Resolving, platform)),
        ops(start(platform), outs).no_duplicates(),
        outs.len() >= plan(Phase::Resolving, platform).len() ==> run(
            start(platform),
            outs,
        ).phase is Finished,
{
    lemma_ops_follow_plan(start(platform), outs);
    let whole = plan(Phase::Resolving, platform);
    let done = ops(start(platform), outs);
    assert(whole.no_duplicates());
    assert forall|i: int, j: int|
        0 <= i < done.len() && 0 <= j < done.len() && i != j implies done[i] != done[j] by {
        assert(done[i] == whole[i] && done[j] == whole[j]);
    }
}

/// A finished pass ignores any further outcome: it performs nothing more and changes nothing.
pub proof fn lemma_finished_pass_is_inert(v: SetupView, r: Result<(), String>)
    requires
        v.phase is Finished,
    ensures
        after(v, r) == v,
        action_of(after(v, r).phase) == Action::Finish,
{
}

/// When the window cannot be found, setup fails: no attribute is touched and no shortcut
/// is registered, whatever is reported afterwards.
pub proof fn lemma_missing_window_fails_setup(
    platform: Platform,
    cause: String,
    rest: Seq<Result<(), String>>,
)
    ensures
        ({
            let outs = seq![Err::<(), String>(cause)] + rest;
            let v = run(start(platform), outs);
            &&& ops(start(platform), outs) == seq![Action::ResolveWindow]
            &&& v.phase is Finished
            &&& v.error == Some(SetupError::WindowNotFound)
            &&& !v.registered
            &&& v.workspaces == AttrOutcome::NotAttempted
            &&& v.protection == AttrOutcome::NotAttempted
        }),
{
    let outs = seq![Err::<(), String>(cause)] + rest;
    let w = after(start(platform), outs[0]);
    assert(outs.drop_first() =~= rest);
    lemma_finished_run(w, rest);
    assert(ops(start(platform), outs) =~= seq![Action::ResolveWindow]);
}

/// When the shortcut is refused, setup fails with that cause, and nothing further is
/// performed or changed, whatever is reported afterwards.
pub proof fn lemma_rejected_shortcut_fails_setup(
    v: SetupView,
    cause: String,
    rest: Seq<Result<(), String>>,
)
    requires
        v.phase is Registering,
    ensures
        ({
            let outs = seq![Err::<(), String>(cause)] + rest;
            let w = run(v, outs);
            &&& ops(v, outs) == seq![Action::RegisterShortcut]
            &&& w.phase is Finished
            &&& w.error == Some(SetupError::ShortcutRejected(cause))
            &&& w.registered == v.registered
            &&& w.workspaces == v.workspaces
            &&& w.protection == v.protection
            &&& w.diagnostics == v.diagnostics
        }),
{
    let outs = seq![Err::<(), String>(cause)] + rest;
    assert(outs[0] == Err::<(), String>(cause));
    let w = after(v, outs[0]);
    assert(outs.drop_first() =~= rest);
    lemma_finished_run(w, rest);
    assert(ops(v, outs) =~= seq![Action::RegisterShortcut]);
}

/// Once the window is found, every window-attribute mutation of the platform is attempted,
/// whatever the outcome of the others, and each outcome is recorded on its own.
pub proof fn lemma_attribute_mutations_are_independent(
    platform: Platform,
    outs: Seq<Result<(), String>>,
)
    requires
        outs.len() >= plan(Phase::Resolving, platform).len() - 1,
        outs[0] is Ok,
    ensures
        ({
            let n = plan(Phase::Resolving, platform).len() - 1;
            let v = run(start(platform), outs.take(n));
            &&& ops(start(platform), outs).take(n) == plan(Phase::Resolving, platform).take(n)
            &&& v.phase is Registering
            &&& v.protection == attr_outcome(outs[n - 1])
            &&& v.workspaces == if platform.spec_has_workspaces() {
                attr_outcome(outs[1])
            } else {
                AttrOutcome::NotAttempted
            }
        }),
{
    let n = plan(Phase::Resolving, platform).len() - 1;
    let v0 = start(platform);
    let t = outs.take(n);
    let v1 = after(v0, outs[0]);
    let o1 = outs.drop_first();
    let t1 = t.drop_first();
    let v2 = after(v1, o1[0]);
    let o2 = o1.drop_first();
    let t2 = t1.drop_first();
    assert(t[0] == outs[0] && t1[0] == o1[0]);
    assert(run(v0, t) == run(v1, t1));
    assert(run(v1, t1) == run(v2, t2));
    assert(ops(v0, outs) == seq![Action::ResolveWindow] + ops(v1, o1));
    assert(ops(v1, o1) == seq![action_of(v1.phase)] + ops(v2, o2));
    if platform.spec_has_workspaces() {
        let v3 = after(v2, o2[0]);
        let o3 = o2.drop_first();
        let t3 = t2.drop_first();
        assert(t2[0] == o2[0]);
        assert(run(v2, t2) == run(v3, t3));
        assert(t3.len() == 0);
        assert(ops(v2, o2) == seq![Action::SetContentProtected] + ops(v3, o3));
        assert(ops(v0, outs).take(3) =~= plan(Phase::Resolving, platform).take(3));
    } else {
        assert(t2.len() == 0);
        assert(ops(v0, outs).take(2) =~= plan(Phase::Resolving, platform).take(2));
    }
}

} // verus!
