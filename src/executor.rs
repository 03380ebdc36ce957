//! The session façade. An executor holds one workspace, one input set, the
//! most recently requested operation and its options. Each operation method
//! records the operation and returns the arguments to run the tool with; the
//! caller runs it in the workspace and hands back what the run left.
use crate::args::{args_of, build_args, init_args, init_args_of, strings_view, Operation};
use crate::inputs::{collect_inputs, entries_view, keys_unique, to_map, InputValues, InputView};
use crate::outcome::{process_result, ExecError, ProcessOutcome};
use crate::workspace::{create_workspace, workspace_dir_fits};
use vstd::prelude::*;

verus! {

/// Options that configure an executor.
#[derive(Clone, Copy, Debug)]
pub struct ExecutorOptions {
    /// Reuse one fixed workspace instead of a fresh one per session.
    pub static_workspace: bool,
    /// Reserved for verbose diagnostics.
    pub debug_mode: bool,
    /// Echo the tool's standard output after each successful run.
    pub output: bool,
}

impl Default for ExecutorOptions {
    fn default() -> (r: ExecutorOptions)
        ensures
            !r.static_workspace && !r.debug_mode && !r.output,
    {
        ExecutorOptions { static_workspace: false, debug_mode: false, output: false }
    }
}

/// A session's working directory and whether a module was fetched into it.
pub struct Workspace {
    dir: String,
    initialized: bool,
}

impl Workspace {
    /// The directory's path.
    pub closed spec fn dir_view(&self) -> Seq<char> {
        self.dir@
    }

    /// Whether an initialization succeeded in this workspace.
    pub closed spec fn is_initialized(&self) -> bool {
        self.initialized
    }

    /// The directory's path.
    pub fn dir(&self) -> (r: &String)
        ensures
            r@ == self.dir_view(),
    {
        &self.dir
    }

    /// Whether an initialization succeeded in this workspace.
    pub fn initialized(&self) -> (r: bool)
        ensures
            r == self.is_initialized(),
    {
        self.initialized
    }
}

/// A session of the tool.
pub struct Executor {
    workspace: Workspace,
    inputs: Vec<(String, InputValues)>,
    current_op: Option<Operation>,
    options: ExecutorOptions,
}

/// The run that an initialization asks for: none when the workspace is
/// already initialized.
pub open spec fn init_request(initialized: bool, source: Seq<char>) -> Option<Seq<Seq<char>>> {
    if initialized {
        None
    } else {
        Some(init_args_of(source))
    }
}

/// Whether the workspace is initialized after a run of the initialization.
pub open spec fn initialized_after(initialized: bool, success: bool) -> bool {
    initialized || success
}

impl Executor {
    /// The input entries, each name once.
    pub closed spec fn entries(&self) -> Seq<(Seq<char>, InputView)> {
        entries_view(self.inputs@)
    }

    /// The input variables by name.
    pub open spec fn input_map(&self) -> Map<Seq<char>, InputView> {
        to_map(self.entries())
    }

    /// The most recently requested operation.
    pub closed spec fn last_op(&self) -> Option<Operation> {
        self.current_op
    }

    /// The options the executor was made with.
    pub closed spec fn options_view(&self) -> ExecutorOptions {
        self.options
    }

    /// The workspace's path.
    pub closed spec fn dir_view(&self) -> Seq<char> {
        self.workspace.dir@
    }

    /// Whether the workspace is initialized.
    pub closed spec fn is_initialized(&self) -> bool {
        self.workspace.initialized
    }

    /// No input name is stored twice.
    #[verifier::type_invariant]
    spec fn wf(&self) -> bool {
        keys_unique(self.entries())
    }

    /// An executor with a new workspace, no inputs and no operation yet.
    pub fn new(options: ExecutorOptions) -> (r: Executor)
        ensures
            workspace_dir_fits(r.dir_view(), options.static_workspace),
            !r.is_initialized(),
            r.entries().len() == 0,
            r.last_op() is None,
            r.options_view() == options,
    {
        let dir = create_workspace(options.static_workspace);
        Executor {
            workspace: Workspace { dir, initialized: false },
            inputs: Vec::new(),
            current_op: None,
            options,
        }
    }

    /// Replaces the whole input set; a later entry for a name replaces an
    /// earlier one.
    pub fn set_inputs(&mut self, inputs: Vec<(String, InputValues)>) -> (r: &mut Executor)
        ensures
            r.input_map() == to_map(entries_view(inputs@)),
            keys_unique(r.entries()),
            r.last_op() == old(self).last_op(),
            r.dir_view() == old(self).dir_view(),
            r.is_initialized() == old(self).is_initialized(),
            r.options_view() == old(self).options_view(),
            *final(self) == *final(r),
    {
        proof {
            use_type_invariant(&*self);
        }
        self.inputs = collect_inputs(&inputs);
        self
    }

    /// The same workspace, inputs and options as `other`.
    pub open spec fn keeps_session(&self, other: &Executor) -> bool {
        &&& self.dir_view() == other.dir_view()
        &&& self.entries() == other.entries()
        &&& self.options_view() == other.options_view()
    }

    /// Requests an initialization that fetches the module at the git
    /// `source`. Returns the arguments to run, or `None` when the workspace
    /// is already initialized and nothing is to be run.
    pub fn init(&mut self, source: &str) -> (r: Option<Vec<String>>)
        ensures
            final(self).keeps_session(old(self)),
            final(self).is_initialized() == old(self).is_initialized(),
            final(self).last_op() == Some(Operation::Init),
            match r {
                Some(v) => init_request(old(self).is_initialized(), source@) == Some(
                    strings_view(v@),
                ),
                None => init_request(old(self).is_initialized(), source@) is None,
            },
    {
        proof {
            use_type_invariant(&*self);
        }
        self.current_op = Some(Operation::Init);
        if self.workspace.initialized {
            return None;
        }
        Some(init_args(source))
    }

    /// Takes the outcome of the run that `init` asked for: the workspace is
    /// initialized once a run succeeds. Returns the run's result.
    pub fn init_finished(&mut self, outcome: ProcessOutcome) -> (r: Result<String, ExecError>)
        ensures
            final(self).keeps_session(old(self)),
            final(self).last_op() == old(self).last_op(),
            final(self).is_initialized() == initialized_after(
                old(self).is_initialized(),
                outcome.success,
            ),
            outcome.success ==> r is Ok && r->Ok_0@ == outcome.stdout@,
            !outcome.success ==> r is Err && r->Err_0 is Process && r->Err_0->Process_0@
                == outcome.stderr@,
    {
        proof {
            use_type_invariant(&*self);
        }
        if outcome.success {
            self.workspace.initialized = true;
        }
        process_result(outcome)
    }

    fn prepare(&mut self, op: Operation) -> (r: Vec<String>)
        ensures
            final(self).keeps_session(old(self)),
            final(self).is_initialized() == old(self).is_initialized(),
            final(self).last_op() == Some(op),
            strings_view(r@) == args_of(op, old(self).entries()),
            keys_unique(old(self).entries()),
    {
        proof {
            use_type_invariant(&*self);
        }
        self.current_op = Some(op);
        build_args(op, &self.inputs)
    }

    /// Requests an `apply`; returns the arguments to run.
    pub fn apply(&mut self) -> (r: Vec<String>)
        ensures
            final(self).keeps_session(old(self)),
            final(self).is_initialized() == old(self).is_initialized(),
            final(self).last_op() == Some(Operation::Apply),
            strings_view(r@) == args_of(Operation::Apply, old(self).entries()),
            keys_unique(old(self).entries()),
    {
        self.prepare(Operation::Apply)
    }

    /// Requests a `plan`; returns the arguments to run.
    pub fn plan(&mut self) -> (r: Vec<String>)
        ensures
            final(self).keeps_session(old(self)),
            final(self).is_initialized() == old(self).is_initialized(),
            final(self).last_op() == Some(Operation::Plan),
            strings_view(r@) == args_of(Operation::Plan, old(self).entries()),
            keys_unique(old(self).entries()),
    {
        self.prepare(Operation::Plan)
    }

    /// Requests a `destroy`; returns the arguments to run.
    pub fn destroy(&mut self) -> (r: Vec<String>)
        ensures
            final(self).keeps_session(old(self)),
            final(self).is_initialized() == old(self).is_initialized(),
            final(self).last_op() == Some(Operation::Destroy),
            strings_view(r@) == args_of(Operation::Destroy, old(self).entries()),
            keys_unique(old(self).entries()),
    {
        self.prepare(Operation::Destroy)
    }

    /// Requests a `refresh`; returns the arguments to run.
    pub fn refresh(&mut self) -> (r: Vec<String>)
        ensures
            final(self).keeps_session(old(self)),
            final(self).is_initialized() == old(self).is_initialized(),
            final(self).last_op() == Some(Operation::Refresh),
            strings_view(r@) == args_of(Operation::Refresh, old(self).entries()),
            keys_unique(old(self).entries()),
    {
        self.prepare(Operation::Refresh)
    }

    /// Requests an `output`; returns the arguments to run. Its outcome is
    /// read with `decode_output`.
    pub fn output(&mut self) -> (r: Vec<String>)
        ensures
            final(self).keeps_session(old(self)),
            final(self).is_initialized() == old(self).is_initialized(),
            final(self).last_op() == Some(Operation::Output),
            strings_view(r@) == args_of(Operation::Output, old(self).entries()),
            keys_unique(old(self).entries()),
    {
        self.prepare(Operation::Output)
    }

    /// The session's workspace.
    pub fn workspace(&self) -> (r: &Workspace)
        ensures
            r.dir_view() == self.dir_view(),
            r.is_initialized() == self.is_initialized(),
    {
        &self.workspace
    }

    /// The most recently requested operation.
    pub fn current_op(&self) -> (r: Option<Operation>)
        ensures
            r == self.last_op(),
    {
        self.current_op
    }

    /// The stored input entries, each name once.
    pub fn inputs(&self) -> (r: &Vec<(String, InputValues)>)
        ensures
            entries_view(r@) == self.entries(),
            keys_unique(self.entries()),
    {
        proof {
            use_type_invariant(self);
        }
        &self.inputs
    }

    /// The options the executor was made with.
    pub fn options(&self) -> (r: ExecutorOptions)
        ensures
            r == self.options_view(),
    {
        self.options
    }
}

/// Initializing twice in succession asks for at most one run: when the
/// first call finds the workspace initialized it asks for none and so does
/// the second; when the first asks for a run and that run succeeds, the
/// second asks for none.
pub proof fn lemma_init_runs_once(initialized: bool, first: Seq<char>, second: Seq<char>)
    ensures
        init_request(initialized, first) is None ==> init_request(initialized, second) is None,
        init_request(initialized, first) is Some ==> init_request(
            initialized_after(initialized, true),
            second,
        ) is None,
{
}

} // verus!
