pub mod dispatcher;

use crate::builder::native::{module_crate, module_functions, module_marked, name_limit};
use crate::builder::stdext_crate::{STDExtCrate, extension_functions};
use crate::script::dispatcher::{BackgroundLoops, LoopRecord, TimerControl, loop_label};
use vstd::prelude::*;

verus! {

/// `rune::Module`, a set of native functions that can be installed.
#[verifier::external_type_specification]
#[verifier::external_body]
pub struct ExModule(rune::Module);

/// `rune::Context`, what a script is compiled against.
#[verifier::external_type_specification]
#[verifier::external_body]
pub struct ExContext(rune::Context);

/// `rune::ContextError`, why a module could not be made or installed.
#[verifier::external_type_specification]
#[verifier::external_body]
pub struct ExContextError(rune::ContextError);

/// `rune::alloc::Error`, why rune could not allocate.
#[verifier::external_type_specification]
#[verifier::external_body]
pub struct ExAllocError(rune::alloc::Error);

/// `rune::Sources`, the sources of a script.
#[verifier::external_type_specification]
#[verifier::external_body]
pub struct ExSources(rune::Sources);

/// `rune::Diagnostics`, what the compiler reported.
#[verifier::external_type_specification]
#[verifier::external_body]
pub struct ExDiagnostics(rune::Diagnostics);

/// `rune::diagnostics::EmitError`, why a report could not be written.
#[verifier::external_type_specification]
#[verifier::external_body]
pub struct ExEmitError(rune::diagnostics::EmitError);

/// `rune::BuildError`, the failure of a build.
#[verifier::external_type_specification]
#[verifier::external_body]
pub struct ExBuildError(rune::BuildError);

/// `rune::runtime::unit::ArrayUnit`, the storage of a compiled unit.
#[verifier::external_type_specification]
#[verifier::external_body]
pub struct ExArrayUnit(rune::runtime::unit::ArrayUnit);

/// `rune::Unit`, a compiled script.
#[verifier::external_type_specification]
#[verifier::external_body]
#[verifier::reject_recursive_types(S)]
pub struct ExUnit<S>(rune::Unit<S>);

/// `rune::runtime::RuntimeContext`, the part of a context that is needed to run.
#[verifier::external_type_specification]
#[verifier::external_body]
pub struct ExRuntimeContext(rune::runtime::RuntimeContext);

/// `rune::Vm`, the virtual machine that runs a compiled script.
#[verifier::external_type_specification]
#[verifier::external_body]
pub struct ExVm(rune::Vm);

/// `rune::runtime::VmError`, the failure of a call into the script.
#[verifier::external_type_specification]
#[verifier::external_body]
pub struct ExVmError(rune::runtime::VmError);

/// `rune::Value`, a value of the script.
#[verifier::external_type_specification]
#[verifier::external_body]
pub struct ExValue(rune::Value);

/// `rune::runtime::Function`, a function of the script.
#[verifier::external_type_specification]
#[verifier::external_body]
pub struct ExFunction(rune::runtime::Function);

/// `rune::runtime::SyncFunction`, a function of the script that can be kept.
#[verifier::external_type_specification]
#[verifier::external_body]
pub struct ExSyncFunction(rune::runtime::SyncFunction);

/// A function that a context holds: the name of its crate, or the empty
/// text where it has none, and its own name.
pub type InstalledFunction = (Seq<char>, Seq<char>);

/// The functions that a context holds.
pub uninterp spec fn context_functions(context: rune::Context) -> Set<InstalledFunction>;

/// The texts of the sources that a collection of sources holds, in the
/// order in which they were inserted.
pub uninterp spec fn source_texts(sources: rune::Sources) -> Seq<Seq<char>>;

/// What a collection of diagnostics holds, in the order in which it was
/// reported: for each diagnostic whether it is fatal, not a warning.
pub uninterp spec fn reported(diagnostics: rune::Diagnostics) -> Seq<bool>;

/// Whether `functions` holds every function that `module` offers, under
/// the module's crate.
pub open spec fn holds_module(functions: Set<InstalledFunction>, module: rune::Module) -> bool {
    forall|name: Seq<char>| #[trigger]
        module_functions(module).contains(name) ==> functions.contains(
            (module_crate(module), name),
        )
}

/// Whether `later` begins with all of `earlier`.
pub open spec fn extends<T>(later: Seq<T>, earlier: Seq<T>) -> bool {
    earlier.len() <= later.len() && later.take(earlier.len() as int) == earlier
}

/// Whether `functions` holds what a script is compiled against: the
/// functions of the library's own module and those of every module of
/// `modules` that bears no mark.
pub open spec fn holds_all(functions: Set<InstalledFunction>, modules: Seq<rune::Module>) -> bool {
    &&& holds_extension(functions)
    &&& forall|i: int|
        0 <= i < modules.len() && !module_marked(#[trigger] modules[i]) ==> holds_module(
            functions,
            modules[i],
        )
}

/// `Context::with_default_modules`: a context that holds rune's own modules.
/// It fails where rune cannot allocate or its modules conflict.
#[verifier::external_body]
fn default_context() -> (context: Result<rune::Context, rune::ContextError>) {
    rune::Context::with_default_modules()
}

/// `Context::install`: adds what `module` declares to `context`. It fails
/// where an item of the module is already in the context. Nothing that the
/// context holds is taken from it, and where the call succeeds for a module
/// without a mark, the context holds every function of the module.
#[verifier::external_body]
fn install_module(context: &mut rune::Context, module: &rune::Module) -> (installed: Result<
    (),
    rune::ContextError,
>)
    ensures
        context_functions(*old(context)).subset_of(context_functions(*final(context))),
        installed is Ok && !module_marked(*module) ==> holds_module(
            context_functions(*final(context)),
            *module,
        ),
{
    context.install(module)
}

/// `Source::memory` and `Sources::insert`: a collection of sources that
/// holds `input` as its only source.
#[verifier::external_body]
fn memory_sources(input: &str) -> (sources: Result<rune::Sources, rune::alloc::Error>)
    ensures
        sources matches Ok(s) ==> source_texts(s) == seq![input@],
{
    let mut sources = rune::Sources::new();
    let source = rune::Source::memory(input)?;
    sources.insert(source)?;
    Ok(sources)
}

/// `Diagnostics::new`: an empty collection of diagnostics, which takes
/// warnings too.
#[verifier::external_body]
fn new_diagnostics() -> (diagnostics: rune::Diagnostics)
    ensures
        reported(diagnostics).len() == 0,
{
    rune::Diagnostics::new()
}

/// `rune::prepare(..).build()`: compiles `sources` against `context` and
/// files what the compiler reports in `diagnostics`, behind what they held.
/// Sources that the script asks for by name are added behind those given.
/// No unit is built where anything fatal was reported.
#[verifier::external_body]
fn build_unit(
    sources: &mut rune::Sources,
    context: &rune::Context,
    diagnostics: &mut rune::Diagnostics,
) -> (unit: Result<rune::Unit, rune::BuildError>)
    ensures
        extends(source_texts(*final(sources)), source_texts(*old(sources))),
        extends(reported(*final(diagnostics)), reported(*old(diagnostics))),
        unit is Ok ==> !reported(*final(diagnostics)).contains(true),
{
    rune::prepare(sources).with_context(context).with_diagnostics(diagnostics).build()
}

/// `Diagnostics::is_empty`: whether nothing was reported.
#[verifier::external_body]
fn diagnostics_is_empty(diagnostics: &rune::Diagnostics) -> (empty: bool)
    ensures
        empty == (reported(*diagnostics).len() == 0),
{
    diagnostics.is_empty()
}

/// `Diagnostics::emit` into a buffer without colours: the report as text,
/// which is empty for empty diagnostics.
#[verifier::external_body]
fn render_diagnostics(diagnostics: &rune::Diagnostics, sources: &rune::Sources) -> (report: Result<
    String,
    rune::diagnostics::EmitError,
>) {
    let mut out = rune::termcolor::Buffer::no_color();
    diagnostics.emit(&mut out, sources)?;
    Ok(String::from_utf8_lossy(out.as_slice()).into_owned())
}

/// `Context::runtime`: the part of `context` that a virtual machine needs.
#[verifier::external_body]
fn runtime_context(context: &rune::Context) -> (runtime: Result<
    rune::runtime::RuntimeContext,
    rune::alloc::Error,
>) {
    context.runtime()
}

/// `Vm::new`: a virtual machine over `runtime` and `unit`.
#[verifier::external_body]
fn new_vm(runtime: rune::runtime::RuntimeContext, unit: rune::Unit) -> (vm: rune::Vm) {
    rune::Vm::new(std::sync::Arc::new(runtime), std::sync::Arc::new(unit))
}

/// `Vm::call` without arguments: runs the script's function `name` to its
/// end. It fails where the script has no such function or the call fails.
/// For the failure rune stores the name, which has to be short enough.
#[verifier::external_body]
fn vm_call(vm: &mut rune::Vm, name: &str) -> (returned: Result<
    rune::Value,
    rune::runtime::VmError,
>)
    requires
        name@.len() < name_limit(),
{
    vm.call([name], ())
}

/// `Vm::lookup_function`: the script's function `name`, where it has one.
#[verifier::external_body]
fn vm_lookup_function(vm: &rune::Vm, name: &str) -> (function: Result<
    rune::runtime::Function,
    rune::runtime::VmError,
>) {
    vm.lookup_function([name])
}

/// `Function::call` without arguments, for a function that returns nothing.
#[verifier::external_body]
fn function_call(function: &rune::runtime::Function) -> (returned: Result<
    (),
    rune::runtime::VmError,
>) {
    function.call::<_, ()>(()).into_result()
}

/// `Function::call` without arguments, for a function that returns a
/// number that fits 64 bits without a sign. It fails too where the function
/// returns anything else.
#[verifier::external_body]
fn function_call_u64(function: &rune::runtime::Function) -> (returned: Result<
    u64,
    rune::runtime::VmError,
>) {
    function.call::<_, u64>(()).into_result()
}

/// `Function::into_sync`: the function in the form that can be kept and
/// called later. It fails for a closure that captured a value that is no
/// constant, such as a generator.
#[verifier::external_body]
fn function_into_sync(function: rune::runtime::Function) -> (sync: Result<
    rune::runtime::SyncFunction,
    rune::runtime::VmError,
>) {
    function.into_sync().into_result()
}

/// `Function`'s `Debug` form as text.
#[verifier::external_body]
fn function_debug(function: &rune::runtime::Function) -> (description: String) {
    format!("{function:?}")
}

/// `SyncFunction::call` with the shared context value as the only argument.
#[verifier::external_body]
fn sync_call(function: &rune::runtime::SyncFunction, context: &rune::Value) -> (returned: Result<
    (),
    rune::runtime::VmError,
>) {
    function.call::<_, ()>((context,)).into_result()
}

/// `SyncFunction::call` with the shared context value and a widget's
/// identifier as arguments.
#[verifier::external_body]
fn sync_call_on_widget(
    function: &rune::runtime::SyncFunction,
    context: &rune::Value,
    identifier: &str,
) -> (returned: Result<(), rune::runtime::VmError>) {
    function.call::<_, ()>((context, identifier)).into_result()
}

/// Where the host of the script stands.
#[derive(Debug, Clone, Copy, PartialEq, Eq, Structural)]
pub enum HostState {
    /// No script has been compiled.
    Uninitialized,
    /// The script is compiled and its entry point has not run.
    Compiled,
    /// The entry point has returned.
    Running,
    /// A call into the script failed.
    Terminated,
}

/// What the host can be asked to do.
#[derive(Debug, Clone, Copy, PartialEq, Eq, Structural)]
pub enum HostStep {
    /// Compile the script.
    Compile,
    /// Call the hook that runs before the interface is set up.
    PreInit,
    /// Call the entry point.
    Entry,
}

/// Whether the host takes `step` in `state`.
pub open spec fn step_allowed(state: HostState, step: HostStep) -> bool {
    match step {
        HostStep::Compile => state == HostState::Uninitialized,
        HostStep::PreInit => state == HostState::Compiled || state == HostState::Running,
        HostStep::Entry => state == HostState::Compiled,
    }
}

/// The state after `step` was asked for in `state` and succeeded or failed.
/// A step that is not allowed fails and changes nothing.
pub open spec fn next_state(state: HostState, step: HostStep, succeeded: bool) -> HostState {
    if !step_allowed(state, step) {
        state
    } else {
        match step {
            HostStep::Compile => if succeeded {
                HostState::Compiled
            } else {
                state
            },
            HostStep::PreInit => if succeeded {
                state
            } else {
                HostState::Terminated
            },
            HostStep::Entry => if succeeded {
                HostState::Running
            } else {
                HostState::Terminated
            },
        }
    }
}

/// The state after a sequence of steps, each with its outcome.
pub open spec fn state_after(state: HostState, steps: Seq<(HostStep, bool)>) -> HostState
    decreases steps.len(),
{
    if steps.len() == 0 {
        state
    } else {
        next_state(state_after(state, steps.drop_last()), steps.last().0, steps.last().1)
    }
}

/// The steps that a host has taken after `step` was asked for in `state`
/// and succeeded or failed. A step that is not allowed is not taken.
pub open spec fn steps_after(
    steps: Seq<(HostStep, bool)>,
    state: HostState,
    step: HostStep,
    succeeded: bool,
) -> Seq<(HostStep, bool)> {
    if step_allowed(state, step) {
        steps.push((step, succeeded))
    } else {
        steps
    }
}

/// Why the host could not do what it was asked.
pub enum EngineError {
    /// The host does not take the step in its current state.
    WrongState,
    /// No modules were assigned before the script was to be compiled.
    MissingModules,
    /// The context could not be made, or a module could not be installed.
    Context(rune::ContextError),
    /// rune could not allocate.
    Allocation(rune::alloc::Error),
    /// The compiler's report could not be written.
    Emit(rune::diagnostics::EmitError),
    /// The compiler reported something: the report as text.
    Diagnostics(String),
    /// The compiler reported nothing and still built no unit.
    Build(rune::BuildError),
    /// A call into the script failed.
    Vm(rune::runtime::VmError),
}

/// What becomes of a build: it counts only where the compiler reported
/// nothing at all.
pub open spec fn judged<T>(built: Result<T, rune::BuildError>, report: Option<String>)
    -> Result<T, EngineError> {
    match report {
        Some(text) => Err(EngineError::Diagnostics(text)),
        None => match built {
            Ok(unit) => Ok(unit),
            Err(error) => Err(EngineError::Build(error)),
        },
    }
}

/// What a call into the script is to the host: what it returned, or its
/// failure as the host's error.
pub open spec fn judged_call<T>(returned: Result<T, rune::runtime::VmError>) -> Result<
    T,
    EngineError,
> {
    match returned {
        Ok(value) => Ok(value),
        Err(error) => Err(EngineError::Vm(error)),
    }
}

/// The tick rate that the script's answer counts for: `answer` is what the
/// call of its function `get_tick_rate` returned, or nothing where the
/// script has no such function. A call that failed counts as no answer.
pub open spec fn judged_tick_rate(answer: Option<Result<u64, rune::runtime::VmError>>) -> Option<
    u64,
> {
    match answer {
        Some(Ok(rate)) => Some(rate),
        _ => None,
    }
}

/// Whether `engine` holds a script that was compiled from `input`, as the
/// first of its sources, against a context that holds the library's own
/// functions and those of `modules`.
pub open spec fn compiled_from(engine: ScriptEngine, modules: Seq<rune::Module>, input: Seq<char>)
    -> bool {
    &&& engine.stored_program() matches Some(program)
    &&& holds_all(context_functions(program.context), modules)
    &&& extends(source_texts(program.sources), seq![input])
}

/// Whether two hosts hold the same compiled script, or both none.
pub open spec fn same_program(before: ScriptEngine, after: ScriptEngine) -> bool {
    after.stored_program() == before.stored_program()
}

/// Whether two hosts hold scripts that were compiled against the same
/// context and from the same sources, or both none.
pub open spec fn same_origin(before: ScriptEngine, after: ScriptEngine) -> bool {
    &&& after.stored_context() == before.stored_context()
    &&& after.stored_sources() == before.stored_sources()
}

/// Whether `functions` holds the functions of the library's own module,
/// under the crate `std`.
pub open spec fn holds_extension(functions: Set<InstalledFunction>) -> bool {
    forall|name: Seq<char>| #[trigger]
        extension_functions().contains(name) ==> functions.contains(("std"@, name))
}

/// A compiled script: the virtual machine that runs it, the context that it
/// was compiled against and the sources that it was compiled from.
pub struct ScriptProgram {
    /// The allocated Rune Virtual Machine.
    pub vm: rune::Vm,
    /// What the script was compiled against.
    pub context: rune::Context,
    /// What the script was compiled from.
    pub sources: rune::Sources,
}

/// Script Engine active for this particular instance: the host of the
/// script's virtual machine.
pub struct ScriptEngine {
    /// Where the host stands.
    state: HostState,
    /// The compiled script, once there is one.
    program: Option<ScriptProgram>,
    /// Rune UI modules to be installed.
    ui_modules: Option<Vec<rune::Module>>,
    /// The steps that the host has taken, each with its outcome.
    history: Ghost<Seq<(HostStep, bool)>>,
}

impl Default for ScriptEngine {
    /// A host with nothing compiled and no modules.
    fn default() -> (engine: Self)
        ensures
            engine.wf(),
            engine.host_state() == HostState::Uninitialized,
            engine.modules() is None,
            engine.stored_program() is None,
            engine.steps().len() == 0,
    {
        ScriptEngine::new()
    }
}

impl ScriptEngine {
    /// Where the host stands.
    pub closed spec fn host_state(&self) -> HostState {
        self.state
    }

    /// The modules that were assigned, if any were.
    pub closed spec fn modules(&self) -> Option<Vec<rune::Module>> {
        self.ui_modules
    }

    /// The steps that the host has taken, each with its outcome, oldest
    /// first.
    pub closed spec fn steps(&self) -> Seq<(HostStep, bool)> {
        self.history@
    }

    /// The compiled script, once there is one.
    pub closed spec fn stored_program(&self) -> Option<ScriptProgram> {
        self.program
    }

    /// The virtual machine that holds the compiled script, once there is
    /// one.
    pub open spec fn stored_vm(&self) -> Option<rune::Vm> {
        match self.stored_program() {
            Some(program) => Some(program.vm),
            None => None,
        }
    }

    /// The context that the script was compiled against, once there is one.
    pub open spec fn stored_context(&self) -> Option<rune::Context> {
        match self.stored_program() {
            Some(program) => Some(program.context),
            None => None,
        }
    }

    /// The sources that the script was compiled from, once there are any.
    pub open spec fn stored_sources(&self) -> Option<rune::Sources> {
        match self.stored_program() {
            Some(program) => Some(program.sources),
            None => None,
        }
    }

    /// The host holds a virtual machine from the moment the script is
    /// compiled, and stands where the steps it has taken lead.
    pub closed spec fn wf(&self) -> bool {
        &&& self.program is Some <==> self.state != HostState::Uninitialized
        &&& self.state == state_after(HostState::Uninitialized, self.history@)
    }

    /// A host with nothing compiled and no modules.
    pub fn new() -> (engine: Self)
        ensures
            engine.wf(),
            engine.host_state() == HostState::Uninitialized,
            engine.modules() is None,
            engine.stored_program() is None,
            engine.steps().len() == 0,
    {
        ScriptEngine {
            state: HostState::Uninitialized,
            program: None,
            ui_modules: None,
            history: Ghost(Seq::empty()),
        }
    }

    /// Where the host stands.
    pub fn state(&self) -> (state: HostState)
        ensures
            state == self.host_state(),
    {
        self.state
    }

    /// Assigns the modules to install when the script is compiled. The
    /// first assignment stands; a later one is dropped.
    pub fn assign_ui_modules(&mut self, modules: Vec<rune::Module>)
        requires
            old(self).wf(),
        ensures
            final(self).wf(),
            final(self).host_state() == old(self).host_state(),
            final(self).steps() == old(self).steps(),
            same_program(*old(self), *final(self)),
            final(self).modules() == match old(self).modules() {
                Some(first) => Some(first),
                None => Some(modules),
            },
    {
        if self.ui_modules.is_none() {
            self.ui_modules = Some(modules);
        }
    }

    /// Decides what becomes of a build, given the compiler's report where it
    /// reported anything.
    pub fn judge_build<T>(built: Result<T, rune::BuildError>, report: Option<String>) -> (unit:
        Result<T, EngineError>)
        ensures
            unit == judged(built, report),
    {
        match report {
            Some(text) => Err(EngineError::Diagnostics(text)),
            None => match built {
                Ok(unit) => Ok(unit),
                Err(error) => Err(EngineError::Build(error)),
            },
        }
    }

    /// The name of the script's entry point.
    pub fn entry_point() -> (name: &'static str)
        ensures
            name@ == "main"@,
    {
        "main"
    }

    /// The name of the script's hook that runs before the interface is set
    /// up.
    pub fn pre_init_hook() -> (name: &'static str)
        ensures
            name@ == "on_ui_pre_init"@,
    {
        "on_ui_pre_init"
    }

    /// The name of the script's function that says how often it wants its
    /// tick.
    pub fn tick_rate_function() -> (name: &'static str)
        ensures
            name@ == "get_tick_rate"@,
    {
        "get_tick_rate"
    }

    /// The compiler's report where it reported anything: `rendered` unless
    /// the diagnostics are empty.
    pub fn report_of(empty: bool, rendered: String) -> (report: Option<String>)
        ensures
            report is None == empty,
            report matches Some(text) ==> text == rendered,
    {
        if empty {
            None
        } else {
            Some(rendered)
        }
    }

    /// Decides what a call into the script is to the host.
    pub fn judge_call<T>(returned: Result<T, rune::runtime::VmError>) -> (called: Result<
        T,
        EngineError,
    >)
        ensures
            called == judged_call(returned),
    {
        match returned {
            Ok(value) => Ok(value),
            Err(error) => Err(EngineError::Vm(error)),
        }
    }

    /// Decides what the script's answer to `get_tick_rate` counts for.
    pub fn judge_tick_rate(answer: Option<Result<u64, rune::runtime::VmError>>) -> (rate: Option<
        u64,
    >)
        ensures
            rate == judged_tick_rate(answer),
    {
        match answer {
            Some(Ok(rate)) => Some(rate),
            _ => None,
        }
    }

    /// Installs rune's own modules, the library's own and the assigned ones
    /// into a new context. Where it succeeds the context holds the
    /// functions of the library's own module and those of every assigned
    /// module that bears no mark.
    pub fn build_context(modules: &Vec<rune::Module>) -> (context: Result<
        rune::Context,
        EngineError,
    >)
        ensures
            context matches Err(error) ==> error is Context,
            context matches Ok(c) ==> holds_all(context_functions(c), modules@),
    {
        let mut context = match default_context() {
            Ok(context) => context,
            Err(error) => {
                return Err(EngineError::Context(error));
            },
        };
        match STDExtCrate::build() {
            Ok(module) => match install_module(&mut context, &module) {
                Ok(()) => {},
                Err(error) => {
                    return Err(EngineError::Context(error));
                },
            },
            Err(error) => {
                return Err(EngineError::Context(error));
            },
        }
        let mut index: usize = 0;
        while index < modules.len()
            invariant
                index <= modules.len(),
                holds_extension(context_functions(context)),
                forall|i: int|
                    0 <= i < index && !module_marked(#[trigger] modules@[i]) ==> holds_module(
                        context_functions(context),
                        modules@[i],
                    ),
            decreases modules.len() - index,
        {
            match install_module(&mut context, &modules[index]) {
                Ok(()) => {},
                Err(error) => {
                    return Err(EngineError::Context(error));
                },
            }
            index += 1;
        }
        Ok(context)
    }

    /// The sources that hold `input` as their only text.
    pub fn sources_of(input: &str) -> (sources: Result<rune::Sources, EngineError>)
        ensures
            sources matches Ok(s) ==> source_texts(s) == seq![input@],
            sources matches Err(error) ==> error is Allocation,
    {
        match memory_sources(input) {
            Ok(sources) => Ok(sources),
            Err(error) => Err(EngineError::Allocation(error)),
        }
    }

    /// Compiles `sources` against `context` into a program that keeps both.
    fn compile(context: rune::Context, sources: rune::Sources) -> (program: Result<
        ScriptProgram,
        EngineError,
    >)
        ensures
            program matches Err(error) ==> error is Allocation || error is Emit
                || error is Diagnostics || error is Build,
            program matches Ok(p) ==> p.context == context && extends(
                source_texts(p.sources),
                source_texts(sources),
            ),
    {
        let mut sources = sources;
        let mut diagnostics = new_diagnostics();
        let built = build_unit(&mut sources, &context, &mut diagnostics);
        let rendered = match render_diagnostics(&diagnostics, &sources) {
            Ok(rendered) => rendered,
            Err(error) => {
                return Err(EngineError::Emit(error));
            },
        };
        let report = Self::report_of(diagnostics_is_empty(&diagnostics), rendered);
        let unit = Self::judge_build(built, report)?;
        match runtime_context(&context) {
            Ok(runtime) => Ok(ScriptProgram { vm: new_vm(runtime, unit), context, sources }),
            Err(error) => Err(EngineError::Allocation(error)),
        }
    }

    /// Builds a new virtual machine from the source `input`, with rune's own
    /// modules, the module of [`STDExtCrate::build`] and the assigned modules
    /// installed. The host keeps the context and the sources with it.
    ///
    /// The host takes this step once, before anything is compiled. The
    /// script is refused where the compiler reports anything at all, a
    /// warning too; the report comes back in the error.
    pub fn run_from_input(&mut self, input: &str) -> (compiled: Result<(), EngineError>)
        requires
            old(self).wf(),
        ensures
            final(self).wf(),
            final(self).modules() == old(self).modules(),
            final(self).host_state() == next_state(
                old(self).host_state(),
                HostStep::Compile,
                compiled is Ok,
            ),
            compiled matches Err(EngineError::WrongState) <==> !step_allowed(
                old(self).host_state(),
                HostStep::Compile,
            ),
            compiled matches Err(EngineError::MissingModules) <==> step_allowed(
                old(self).host_state(),
                HostStep::Compile,
            ) && old(self).modules() is None,
            compiled matches Err(error) ==> !(error is Vm),
            compiled is Err ==> same_program(*old(self), *final(self)),
            compiled is Ok ==> compiled_from(*final(self), old(self).modules()->0@, input@),
            final(self).steps() == steps_after(
                old(self).steps(),
                old(self).host_state(),
                HostStep::Compile,
                compiled is Ok,
            ),
    {
        if self.state != HostState::Uninitialized {
            return Err(EngineError::WrongState);
        }
        let compiled = match &self.ui_modules {
            Some(modules) => Self::compile_against(modules, input),
            None => Err(EngineError::MissingModules),
        };
        proof {
            lemma_one_more_step(
                HostState::Uninitialized,
                self.history@,
                HostStep::Compile,
                compiled is Ok,
            );
        }
        self.history = Ghost(self.history@.push((HostStep::Compile, compiled is Ok)));
        match compiled {
            Ok(program) => {
                self.program = Some(program);
                self.state = HostState::Compiled;
                Ok(())
            },
            Err(error) => Err(error),
        }
    }

    /// Compiles `input` against a context that holds `modules` into a
    /// virtual machine.
    fn compile_against(modules: &Vec<rune::Module>, input: &str) -> (program: Result<
        ScriptProgram,
        EngineError,
    >)
        ensures
            program matches Err(error) ==> error is Context || error is Allocation
                || error is Emit || error is Diagnostics || error is Build,
            program matches Ok(p) ==> holds_all(context_functions(p.context), modules@) && extends(
                source_texts(p.sources),
                seq![input@],
            ),
    {
        let context = Self::build_context(modules)?;
        let sources = Self::sources_of(input)?;
        Self::compile(context, sources)
    }

    /// Records how a call into the script ended: a failure ends the host.
    fn settle(&mut self, step: HostStep, returned: Result<(), rune::runtime::VmError>) -> (called:
        Result<(), EngineError>)
        requires
            old(self).wf(),
            step_allowed(old(self).host_state(), step),
            step != HostStep::Compile,
        ensures
            final(self).wf(),
            final(self).modules() == old(self).modules(),
            final(self).host_state() == next_state(old(self).host_state(), step, returned is Ok),
            final(self).steps() == old(self).steps().push((step, returned is Ok)),
            same_program(*old(self), *final(self)),
            called == match returned {
                Ok(()) => Ok::<(), EngineError>(()),
                Err(error) => Err::<(), EngineError>(EngineError::Vm(error)),
            },
    {
        proof {
            lemma_one_more_step(HostState::Uninitialized, self.history@, step, returned is Ok);
        }
        self.history = Ghost(self.history@.push((step, returned is Ok)));
        match returned {
            Ok(()) => {
                if step == HostStep::Entry {
                    self.state = HostState::Running;
                }
                Ok(())
            },
            Err(error) => {
                self.state = HostState::Terminated;
                Err(EngineError::Vm(error))
            },
        }
    }

    /// Calls the `main` function on the VM.
    ///
    /// The host takes this step once, when the script is compiled. A
    /// failure of the call ends the host.
    pub fn call_main(&mut self) -> (called: Result<(), EngineError>)
        requires
            old(self).wf(),
        ensures
            final(self).wf(),
            final(self).modules() == old(self).modules(),
            final(self).host_state() == next_state(
                old(self).host_state(),
                HostStep::Entry,
                called is Ok,
            ),
            called matches Err(EngineError::WrongState) <==> !step_allowed(
                old(self).host_state(),
                HostStep::Entry,
            ),
            called matches Err(error) ==> error is WrongState || error is Vm,
            final(self).steps() == steps_after(
                old(self).steps(),
                old(self).host_state(),
                HostStep::Entry,
                called is Ok,
            ),
            called matches Err(EngineError::WrongState) ==> same_program(*old(self), *final(self)),
            same_origin(*old(self), *final(self)),
    {
        if self.state != HostState::Compiled {
            return Err(EngineError::WrongState);
        }
        proof {
            reveal_strlit("main");
        }
        let returned = match &mut self.program {
            Some(program) => match vm_call(&mut program.vm, Self::entry_point()) {
                Ok(_) => Ok(()),
                Err(error) => Err(error),
            },
            None => {
                return Err(EngineError::WrongState);
            },
        };
        self.settle(HostStep::Entry, returned)
    }

    /// Asks the script how often it wants its tick, in milliseconds, by its
    /// function `get_tick_rate`. There is no answer before the script is
    /// compiled, from a script without that function, and where the call
    /// fails.
    pub fn get_tick_rate(&self) -> (rate: Option<u64>)
        requires
            self.wf(),
        ensures
            self.host_state() == HostState::Uninitialized ==> rate is None,
    {
        let answer = match &self.program {
            Some(program) => match vm_lookup_function(&program.vm, Self::tick_rate_function()) {
                Ok(get_tick_rate) => Some(function_call_u64(&get_tick_rate)),
                Err(_) => None,
            },
            None => None,
        };
        Self::judge_tick_rate(answer)
    }

    /// Calls the `on_ui_pre_init` function on the VM if found.
    ///
    /// A script without the function is in order: nothing is called and
    /// nothing changes. A failure of the call ends the host.
    pub fn call_on_ui_pre_init(&mut self) -> (called: Result<(), EngineError>)
        requires
            old(self).wf(),
        ensures
            final(self).wf(),
            final(self).modules() == old(self).modules(),
            final(self).host_state() == next_state(
                old(self).host_state(),
                HostStep::PreInit,
                called is Ok,
            ),
            called matches Err(EngineError::WrongState) <==> !step_allowed(
                old(self).host_state(),
                HostStep::PreInit,
            ),
            called matches Err(error) ==> error is WrongState || error is Vm,
            final(self).steps() == steps_after(
                old(self).steps(),
                old(self).host_state(),
                HostStep::PreInit,
                called is Ok,
            ),
            same_program(*old(self), *final(self)),
    {
        if self.state != HostState::Compiled && self.state != HostState::Running {
            return Err(EngineError::WrongState);
        }
        let returned = match &self.program {
            Some(program) => match vm_lookup_function(&program.vm, Self::pre_init_hook()) {
                Ok(hook) => function_call(&hook),
                Err(_) => Ok(()),
            },
            None => {
                return Err(EngineError::WrongState);
            },
        };
        self.settle(HostStep::PreInit, returned)
    }
}

/// Data collected from the `main` function return data: the callbacks that
/// the script declared, and the value that each of them gets as its first
/// argument.
pub struct MainReturnData {
    /// Single argument to be passed into every event function, such as a
    /// structure instance.
    pub event_arg: rune::Value,
    /// `on_button_click` Rune function.
    pub on_button_click_rfn: rune::runtime::SyncFunction,
    /// `on_enter_widget` Rune function.
    pub on_enter_widget_rfn: rune::runtime::SyncFunction,
    /// `on_exit_widget` Rune function.
    pub on_exit_widget_rfn: rune::runtime::SyncFunction,
    /// `on_tick` Rune function, where the script declared one.
    pub on_tick_rfn: Option<rune::runtime::SyncFunction>,
}

/// A function of the script in the form that can be kept, or why it cannot
/// be kept.
pub type Kept = Result<rune::runtime::SyncFunction, EngineError>;

/// The first of the event functions that could not be kept, in the order
/// click, enter, exit, tick.
pub open spec fn first_not_kept(click: Kept, enter: Kept, exit: Kept, tick: Option<Kept>) -> Option<
    EngineError,
> {
    match (click, enter, exit, tick) {
        (Err(error), _, _, _) => Some(error),
        (_, Err(error), _, _) => Some(error),
        (_, _, Err(error), _) => Some(error),
        (_, _, _, Some(Err(error))) => Some(error),
        _ => None,
    }
}

impl MainReturnData {
    /// Puts the callbacks together that the script declared. All of them
    /// must have been kept: the first that was not is the failure.
    pub fn main_return_data(
        event_arg: rune::Value,
        click: Kept,
        enter: Kept,
        exit: Kept,
        tick: Option<Kept>,
    ) -> (data: Result<MainReturnData, EngineError>)
        ensures
            data is Ok <==> first_not_kept(click, enter, exit, tick) is None,
            match data {
                Ok(d) => {
                    &&& first_not_kept(click, enter, exit, tick) is None
                    &&& d.event_arg == event_arg
                    &&& click == Ok::<rune::runtime::SyncFunction, EngineError>(
                        d.on_button_click_rfn,
                    )
                    &&& enter == Ok::<rune::runtime::SyncFunction, EngineError>(
                        d.on_enter_widget_rfn,
                    )
                    &&& exit == Ok::<rune::runtime::SyncFunction, EngineError>(d.on_exit_widget_rfn)
                    &&& match d.on_tick_rfn {
                        Some(on_tick) => tick == Some(
                            Ok::<rune::runtime::SyncFunction, EngineError>(on_tick),
                        ),
                        None => tick is None,
                    }
                },
                Err(error) => first_not_kept(click, enter, exit, tick) == Some(error),
            },
    {
        let on_button_click_rfn = click?;
        let on_enter_widget_rfn = enter?;
        let on_exit_widget_rfn = exit?;
        let on_tick_rfn = match tick {
            Some(Ok(on_tick)) => Some(on_tick),
            Some(Err(error)) => {
                return Err(error);
            },
            None => None,
        };
        Ok(
            MainReturnData {
                event_arg,
                on_button_click_rfn,
                on_enter_widget_rfn,
                on_exit_widget_rfn,
                on_tick_rfn,
            },
        )
    }

    /// The function that follows the pointer into a widget, or out of it.
    pub fn pointer_handler(&self, entered: bool) -> (handler: &rune::runtime::SyncFunction)
        ensures
            *handler == if entered {
                self.on_enter_widget_rfn
            } else {
                self.on_exit_widget_rfn
            },
    {
        if entered {
            &self.on_enter_widget_rfn
        } else {
            &self.on_exit_widget_rfn
        }
    }
}

impl ScriptEngine {
    /// Turns a function of the script into the form that can be kept and
    /// called later.
    pub fn into_sync(function: rune::runtime::Function) -> (sync: Result<
        rune::runtime::SyncFunction,
        EngineError,
    >)
        ensures
            sync matches Err(error) ==> error is Vm,
    {
        Self::judge_call(function_into_sync(function))
    }

    /// The text by which a function of the script is named in labels.
    pub fn describe_function(function: &rune::runtime::Function) -> (description: String) {
        function_debug(function)
    }

    /// Stores the callbacks that the script declared. They are stored once:
    /// where `slot` is filled it stays as it is, and `false` comes back.
    pub fn init_runtime_config(slot: &mut Option<MainReturnData>, data: MainReturnData) -> (stored:
        bool)
        ensures
            stored == (*old(slot) is None),
            *final(slot) == match *old(slot) {
                Some(first) => Some(first),
                None => Some(data),
            },
    {
        if slot.is_none() {
            *slot = Some(data);
            true
        } else {
            false
        }
    }

    /// Calls the `on_enter_widget` or `on_exit_widget` function of the
    /// script for the widget `identifier`, and says whether a call was made
    /// and succeeded. Before the script has declared its callbacks nothing
    /// is called.
    pub fn call_enter_exit(
        data: Option<&MainReturnData>,
        identifier: &str,
        entered: bool,
    ) -> (called: bool)
        ensures
            data is None ==> !called,
    {
        match data {
            None => false,
            Some(data) => Self::judge_call(
                sync_call_on_widget(data.pointer_handler(entered), &data.event_arg, identifier),
            ).is_ok(),
        }
    }

    /// Calls the `on_button_click` function of the script for the button
    /// `identifier`, and says whether a call was made and succeeded. Before
    /// the script has declared its callbacks nothing is called.
    pub fn call_on_button_click(data: Option<&MainReturnData>, identifier: &str) -> (called: bool)
        ensures
            data is None ==> !called,
    {
        match data {
            None => false,
            Some(data) => Self::judge_call(
                sync_call_on_widget(&data.on_button_click_rfn, &data.event_arg, identifier),
            ).is_ok(),
        }
    }

    /// Fires the global tick: calls the `on_tick` function of the script and
    /// says what becomes of the timer. A script that declared no callbacks,
    /// or no `on_tick`, has no tick; a tick whose call fails is not
    /// scheduled again.
    pub fn call_on_tick(data: Option<&MainReturnData>) -> (control: TimerControl)
        ensures
            data is None ==> control == TimerControl::Break,
            data matches Some(d) && d.on_tick_rfn is None ==> control == TimerControl::Break,
    {
        match data {
            None => TimerControl::Break,
            Some(data) => match &data.on_tick_rfn {
                None => TimerControl::Break,
                Some(on_tick) => TimerControl::after(
                    Self::judge_call(sync_call(on_tick, &data.event_arg)).is_ok(),
                ),
            },
        }
    }

    /// Calls the callback of a background loop once, with the shared context
    /// value, and says whether the call succeeded. The caller hands the
    /// outcome to [`BackgroundLoops::fired`], which says what becomes of
    /// the loop's timer.
    pub fn call_background_loop(
        data: &MainReturnData,
        loop_function: &rune::runtime::SyncFunction,
    ) -> (succeeded: bool) {
        Self::judge_call(sync_call(loop_function, &data.event_arg)).is_ok()
    }

    /// Starts a new background loop.
    ///
    /// Before the script has declared its callbacks no loop can start:
    /// nothing changes and nothing comes back. Else the loop is entered
    /// under the label made of `identifier` and of `callback`, the
    /// description of its function, and its index comes back; the caller
    /// schedules its timer with the period `time`, in milliseconds.
    pub fn start_background_loop(
        data: Option<&MainReturnData>,
        loops: &mut BackgroundLoops,
        identifier: String,
        callback: &str,
        time: u64,
    ) -> (started: Option<usize>)
        ensures
            started is Some == data is Some,
            started matches Some(index) ==> index == old(loops)@.len(),
            final(loops)@ == if data is Some {
                old(loops)@.push(
                    LoopRecord {
                        label: loop_label(identifier@, callback@),
                        period_ms: time,
                        active: true,
                    },
                )
            } else {
                old(loops)@
            },
    {
        match data {
            None => None,
            Some(_) => Some(loops.start(identifier, callback, time)),
        }
    }
}

/// The state after one more step is the next state of the state before.
pub proof fn lemma_one_more_step(
    state: HostState,
    steps: Seq<(HostStep, bool)>,
    step: HostStep,
    ok: bool,
)
    ensures
        state_after(state, steps.push((step, ok))) == next_state(
            state_after(state, steps),
            step,
            ok,
        ),
{
    assert(steps.push((step, ok)).drop_last() == steps);
}

/// Once the entry point has been called, whatever the host is asked and
/// however it ends, nothing is compiled again and the entry point is not
/// called again.
pub proof fn law_entry_point_runs_once(state: HostState, steps: Seq<(HostStep, bool)>)
    requires
        state == HostState::Running || state == HostState::Terminated,
    ensures
        state_after(state, steps) == HostState::Running || state_after(state, steps)
            == HostState::Terminated,
        !step_allowed(state_after(state, steps), HostStep::Compile),
        !step_allowed(state_after(state, steps), HostStep::Entry),
    decreases steps.len(),
{
    if steps.len() > 0 {
        law_entry_point_runs_once(state, steps.drop_last());
    }
}

/// A host that a failed call has ended stays ended.
pub proof fn law_terminated_is_final(steps: Seq<(HostStep, bool)>)
    ensures
        state_after(HostState::Terminated, steps) == HostState::Terminated,
    decreases steps.len(),
{
    if steps.len() > 0 {
        law_terminated_is_final(steps.drop_last());
    }
}

} // verus!
