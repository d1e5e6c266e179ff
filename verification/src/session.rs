//! The wizard session: the checklist, the lifecycle state, the animated
//! progress value and the last captured output line, with the verified
//! operations the renderer and the process supervisor drive it through.

use vstd::prelude::*;

use crate::args::checklist_labels;
use crate::messages::{
    exit_message, exit_message_spec, spawn_error_message, spawn_message_spec, wait_error_message,
    wait_message_spec,
};
use crate::progress::{animation_step, animation_step_spec, ANIMATION_TARGET, PROGRESS_SCALE};
use crate::state::{step_allowed, SetupState};

verus! {

/// One selectable install option: its label and whether the user has
/// selected it.
pub struct ChecklistEntry {
    pub label: String,
    pub selected: bool,
}

/// The state of one wizard run, owned by the UI session and driven by
/// the renderer and the background tasks.
pub struct SetupSession {
    state: SetupState,
    checklist: Vec<ChecklistEntry>,
    progress: u32,
    last_output: String,
}

impl SetupSession {
    /// The fixed-point progress value never exceeds 1.0, and while the
    /// animation may still run it stays below its 0.95 target.
    #[verifier::type_invariant]
    closed spec fn inv(self) -> bool {
        self.progress <= PROGRESS_SCALE && (self.state is Running ==> self.progress
            < ANIMATION_TARGET)
    }

    /// The lifecycle state.
    pub closed spec fn state(&self) -> SetupState {
        self.state
    }

    /// The checklist entries, in declared order.
    pub closed spec fn checklist(&self) -> Seq<ChecklistEntry> {
        self.checklist@
    }

    /// The fixed-point progress value.
    pub closed spec fn progress(&self) -> u32 {
        self.progress
    }

    /// The most recent line captured from the child's standard output.
    pub closed spec fn last_output(&self) -> Seq<char> {
        self.last_output@
    }

    /// A fresh session: `Idle`, nothing selected, no progress, no
    /// output.
    pub fn new(labels: Vec<String>) -> (s: Self)
        ensures
            s.state() is Idle,
            s.progress() == 0,
            s.last_output() == Seq::<char>::empty(),
            s.checklist().len() == labels@.len(),
            forall|i: int|
                0 <= i < labels@.len() ==> (#[trigger] s.checklist()[i]).label@ == labels@[i]@
                    && !s.checklist()[i].selected,
    {
        let mut entries: Vec<ChecklistEntry> = Vec::new();
        let mut k: usize = 0;
        while k < labels.len()
            invariant
                k <= labels@.len(),
                entries@.len() == k,
                forall|i: int|
                    0 <= i < k ==> (#[trigger] entries@[i]).label@ == labels@[i]@
                        && !entries@[i].selected,
            decreases labels@.len() - k,
        {
            entries.push(ChecklistEntry { label: labels[k].clone(), selected: false });
            k = k + 1;
        }
        SetupSession {
            state: SetupState::Idle,
            checklist: entries,
            progress: 0,
            last_output: String::new(),
        }
    }

    /// Selects or clears one checklist entry. The checklist is editable
    /// only while the session is `Idle`; anywhere else, or out of
    /// range, nothing changes.
    pub fn set_selected(&mut self, index: usize, value: bool)
        ensures
            old(self).state() is Idle && index < old(self).checklist().len() ==> final(self)
                .checklist() == old(self).checklist().update(
                index as int,
                ChecklistEntry { selected: value, ..old(self).checklist()[index as int] },
            ),
            !(old(self).state() is Idle && index < old(self).checklist().len()) ==> *final(self)
                == *old(self),
            final(self).state() == old(self).state(),
            final(self).progress() == old(self).progress(),
            final(self).last_output() == old(self).last_output(),
            step_allowed(old(self).state(), final(self).state()),
    {
        let editable = match self.state {
            SetupState::Idle => true,
            _ => false,
        };
        if editable && index < self.checklist.len() {
            proof {
                use_type_invariant(&*self);
            }
            self.checklist[index].selected = value;
        }
    }

    /// Starts a run: from `Idle` the session moves to `Running` with
    /// progress and captured output reset, and the call reports that it
    /// started one. From any other state the call is a no-op, so a
    /// double invocation cannot start a second run.
    pub fn begin_run(&mut self) -> (started: bool)
        ensures
            started == (old(self).state() is Idle),
            started ==> final(self).state() is Running && final(self).progress() == 0
                && final(self).last_output() == Seq::<char>::empty() && final(self).checklist()
                == old(self).checklist(),
            !started ==> *final(self) == *old(self),
            step_allowed(old(self).state(), final(self).state()),
    {
        proof {
            use_type_invariant(&*self);
        }
        match self.state {
            SetupState::Idle => {
                self.progress = 0;
                self.last_output = String::new();
                self.state = SetupState::Running;
                true
            },
            _ => false,
        }
    }

    /// One tick of the cosmetic progress animation: while the session
    /// is `Running` the progress value moves towards, but never
    /// reaches, the animation target; in any other state nothing
    /// changes. Progress never decreases.
    pub fn animation_tick(&mut self)
        ensures
            final(self).progress() >= old(self).progress(),
            old(self).state() is Running ==> final(self).progress() == animation_step_spec(
                old(self).progress() as int,
            ) && final(self).progress() < ANIMATION_TARGET,
            !(old(self).state() is Running) ==> *final(self) == *old(self),
            final(self).state() == old(self).state(),
            final(self).checklist() == old(self).checklist(),
            final(self).last_output() == old(self).last_output(),
            step_allowed(old(self).state(), final(self).state()),
    {
        proof {
            use_type_invariant(&*self);
        }
        let running = match self.state {
            SetupState::Running => true,
            _ => false,
        };
        if running {
            self.progress = animation_step(self.progress);
        }
    }

    /// Records one line read from the child's standard output: the most
    /// recent line wins, no history is kept.
    pub fn record_stdout_line(&mut self, line: String)
        ensures
            final(self).last_output() == line@,
            final(self).state() == old(self).state(),
            final(self).progress() == old(self).progress(),
            final(self).checklist() == old(self).checklist(),
            step_allowed(old(self).state(), final(self).state()),
    {
        proof {
            use_type_invariant(&*self);
        }
        self.last_output = line;
    }

    /// Resolves a running session to `Complete` and snaps progress to
    /// 1.0; this is the only way progress reaches 1.0. Outside
    /// `Running` nothing changes.
    pub fn finish_success(&mut self)
        ensures
            old(self).state() is Running ==> final(self).state() is Complete
                && final(self).progress() == PROGRESS_SCALE,
            !(old(self).state() is Running) ==> *final(self) == *old(self),
            final(self).checklist() == old(self).checklist(),
            final(self).last_output() == old(self).last_output(),
            step_allowed(old(self).state(), final(self).state()),
    {
        proof {
            use_type_invariant(&*self);
        }
        let running = match self.state {
            SetupState::Running => true,
            _ => false,
        };
        if running {
            self.state = SetupState::Complete;
            self.progress = PROGRESS_SCALE;
        }
    }

    /// Resolves a running session to `Error` for a child process that
    /// exited without success, with the message built from the exit
    /// code and the accumulated standard-error text. Outside `Running`
    /// nothing changes.
    pub fn finish_failure(&mut self, code: Option<i32>, stderr_text: &String)
        ensures
            old(self).state() is Running ==> (final(self).state() matches SetupState::Error(m)
                && m@ == exit_message_spec(code, stderr_text@)),
            !(old(self).state() is Running) ==> *final(self) == *old(self),
            final(self).progress() == old(self).progress(),
            final(self).checklist() == old(self).checklist(),
            final(self).last_output() == old(self).last_output(),
            step_allowed(old(self).state(), final(self).state()),
    {
        proof {
            use_type_invariant(&*self);
        }
        let running = match self.state {
            SetupState::Running => true,
            _ => false,
        };
        if running {
            self.state = SetupState::Error(exit_message(code, stderr_text));
        }
    }

    /// Resolves a running session to `Error` for a setup executable
    /// that could not be started; the message quotes the attempted path
    /// and the underlying error text. Outside `Running` nothing
    /// changes.
    pub fn fail_spawn(&mut self, path: &str, err: &str)
        ensures
            old(self).state() is Running ==> (final(self).state() matches SetupState::Error(m)
                && m@ == spawn_message_spec(path@, err@)),
            !(old(self).state() is Running) ==> *final(self) == *old(self),
            final(self).progress() == old(self).progress(),
            final(self).checklist() == old(self).checklist(),
            final(self).last_output() == old(self).last_output(),
            step_allowed(old(self).state(), final(self).state()),
    {
        proof {
            use_type_invariant(&*self);
        }
        let running = match self.state {
            SetupState::Running => true,
            _ => false,
        };
        if running {
            self.state = SetupState::Error(spawn_error_message(path, err));
        }
    }

    /// Resolves a running session to `Error` when waiting for the exit
    /// status itself failed. Outside `Running` nothing changes.
    pub fn fail_wait(&mut self, err: &str)
        ensures
            old(self).state() is Running ==> (final(self).state() matches SetupState::Error(m)
                && m@ == wait_message_spec(err@)),
            !(old(self).state() is Running) ==> *final(self) == *old(self),
            final(self).progress() == old(self).progress(),
            final(self).checklist() == old(self).checklist(),
            final(self).last_output() == old(self).last_output(),
            step_allowed(old(self).state(), final(self).state()),
    {
        proof {
            use_type_invariant(&*self);
        }
        let running = match self.state {
            SetupState::Running => true,
            _ => false,
        };
        if running {
            self.state = SetupState::Error(wait_error_message(err));
        }
    }

    /// Whether the session still sits on the checklist screen.
    pub fn is_idle(&self) -> (r: bool)
        ensures
            r == (self.state() is Idle),
    {
        match self.state {
            SetupState::Idle => true,
            _ => false,
        }
    }

    /// Whether a run is in flight. While this holds the renderer keeps
    /// re-requesting redraws, since background tasks mutate the session
    /// asynchronously.
    pub fn is_running(&self) -> (r: bool)
        ensures
            r == (self.state() is Running),
    {
        match self.state {
            SetupState::Running => true,
            _ => false,
        }
    }

    /// Whether the run ended in success.
    pub fn is_complete(&self) -> (r: bool)
        ensures
            r == (self.state() is Complete),
    {
        match self.state {
            SetupState::Complete => true,
            _ => false,
        }
    }

    /// The diagnostic text of a failed run, or nothing outside the
    /// `Error` state.
    pub fn error_message(&self) -> (r: Option<String>)
        ensures
            r is Some <==> self.state() is Error,
            self.state() matches SetupState::Error(m) ==> (r matches Some(s) && s@ == m@),
    {
        match &self.state {
            SetupState::Error(m) => Some(m.clone()),
            _ => None,
        }
    }

    /// The fixed-point progress value shown by the progress bar.
    pub fn progress_value(&self) -> (p: u32)
        ensures
            p == self.progress(),
            p <= PROGRESS_SCALE,
    {
        proof {
            use_type_invariant(&*self);
        }
        self.progress
    }

    /// The most recent line captured from the child's standard output.
    pub fn last_output_line(&self) -> (r: String)
        ensures
            r@ == self.last_output(),
    {
        self.last_output.clone()
    }

    /// The status line shown under the progress bar: the last captured
    /// output line, or a placeholder while there is none yet.
    pub fn status_line(&self) -> (r: String)
        ensures
            self.last_output().len() == 0 ==> r@ == "Please wait..."@,
            self.last_output().len() > 0 ==> r@ == self.last_output(),
    {
        if self.last_output.as_str().is_empty() {
            String::from_str("Please wait...")
        } else {
            self.last_output.clone()
        }
    }

    /// The exit status the wizard itself terminates with once the user
    /// acknowledges the outcome: success after `Complete` (the Finish
    /// action), failure after `Error` (the Close action), and nothing
    /// before the run has resolved.
    pub fn exit_code(&self) -> (r: Option<i32>)
        ensures
            self.state() is Complete ==> r == Some(0i32),
            self.state() is Error ==> r == Some(1i32),
            self.state() is Idle || self.state() is Running ==> r is None,
    {
        match self.state {
            SetupState::Complete => Some(0),
            SetupState::Error(_) => Some(1),
            _ => None,
        }
    }

    /// The number of checklist entries.
    pub fn checklist_len(&self) -> (n: usize)
        ensures
            n == self.checklist().len(),
    {
        self.checklist.len()
    }

    /// The label of one checklist entry.
    pub fn label(&self, index: usize) -> (r: String)
        requires
            index < self.checklist().len(),
        ensures
            r@ == self.checklist()[index as int].label@,
    {
        self.checklist[index].label.clone()
    }

    /// Whether one checklist entry is selected.
    pub fn selected(&self, index: usize) -> (r: bool)
        requires
            index < self.checklist().len(),
        ensures
            r == self.checklist()[index as int].selected,
    {
        self.checklist[index].selected
    }

    /// The argument list for the setup executable: one boolean token
    /// per checklist entry, in checklist order, followed by the extra
    /// arguments unchanged.
    pub fn build_args(&self, extra: &Vec<String>) -> (args: Vec<String>)
        ensures
            args@.len() == self.checklist().len() + extra@.len(),
            forall|i: int|
                0 <= i < self.checklist().len() ==> (#[trigger] args@[i])@ == (if self.checklist()[
                    i
                ].selected {
                    "true"@
                } else {
                    "false"@
                }),
            forall|j: int|
                0 <= j < extra@.len() ==> (#[trigger] args@[self.checklist().len() + j])@
                    == extra@[j]@,
    {
        let mut args: Vec<String> = Vec::new();
        let n = self.checklist.len();
        let mut k: usize = 0;
        while k < n
            invariant
                n == self.checklist().len(),
                k <= n,
                args@.len() == k,
                forall|i: int|
                    0 <= i < k ==> (#[trigger] args@[i])@ == (if self.checklist()[i].selected {
                        "true"@
                    } else {
                        "false"@
                    }),
            decreases n - k,
        {
            if self.checklist[k].selected {
                args.push(String::from_str("true"));
            } else {
                args.push(String::from_str("false"));
            }
            k = k + 1;
        }
        let m = extra.len();
        let mut j: usize = 0;
        while j < m
            invariant
                n == self.checklist().len(),
                m == extra@.len(),
                j <= m,
                args@.len() == n + j,
                forall|i: int|
                    0 <= i < n ==> (#[trigger] args@[i])@ == (if self.checklist()[i].selected {
                        "true"@
                    } else {
                        "false"@
                    }),
                forall|i: int| 0 <= i < j ==> (#[trigger] args@[n + i])@ == extra@[i]@,
            decreases m - j,
        {
            args.push(extra[j].clone());
            j = j + 1;
        }
        args
    }
}

impl Default for SetupSession {
    /// A fresh session over the build-time checklist.
    fn default() -> (s: Self)
        ensures
            s.state() is Idle,
            s.progress() == 0,
            s.last_output() == Seq::<char>::empty(),
            s.checklist().len() == 3,
            forall|i: int| 0 <= i < 3 ==> !(#[trigger] s.checklist()[i]).selected,
            s.checklist()[0].label@ == "Install Dependencies"@,
            s.checklist()[1].label@ == "Register File Types (Requires Admin)"@,
            s.checklist()[2].label@ == "Create launcher and update PATH"@,
    {
        SetupSession::new(checklist_labels())
    }
}

} // verus!
