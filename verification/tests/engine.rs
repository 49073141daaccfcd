use crisp::builder::{StartupError, UIBuilder, WidgetShape};
use crisp::errors::BuilderErrors;
use crisp::script::dispatcher::{tick_period, BackgroundLoops, TimerControl};
use crisp::script::{EngineError, HostState, MainReturnData, ScriptEngine};
use std::sync::atomic::{AtomicUsize, Ordering};
use std::sync::Arc;

const CALLBACKS: &str = "
pub fn context() { [0, 0, 0, 0] }
pub fn on_button_click(context, identifier) { context[0] = context[0] + 1; }
pub fn on_enter_widget(context, identifier) { context[1] = context[1] + identifier.len(); }
pub fn on_exit_widget(context, identifier) { let broken = 1 / (context[1] - context[1]); }
pub fn on_tick(context) { context[2] = context[2] + 1; let left = 1 / (3 - context[2]); }
pub fn count(context) { context[3] = context[3] + 1; }
pub fn clicks(context) { context[0] }
pub fn entered(context) { context[1] }
pub fn counted(context) { context[3] }
pub fn main() {}
";

fn compiled(script: &str) -> rune::Vm {
    let context = rune::Context::with_default_modules().unwrap();
    let mut sources = rune::Sources::new();
    sources.insert(rune::Source::memory(script).unwrap()).unwrap();
    let unit = rune::prepare(&mut sources).with_context(&context).build().unwrap();
    rune::Vm::new(Arc::new(context.runtime().unwrap()), Arc::new(unit))
}

fn sync(vm: &rune::Vm, name: &str) -> rune::runtime::SyncFunction {
    ScriptEngine::into_sync(vm.lookup_function([name]).unwrap()).ok().unwrap()
}

fn callbacks(vm: &mut rune::Vm, with_tick: bool) -> MainReturnData {
    MainReturnData {
        event_arg: vm.call(["context"], ()).unwrap(),
        on_button_click_rfn: sync(vm, "on_button_click"),
        on_enter_widget_rfn: sync(vm, "on_enter_widget"),
        on_exit_widget_rfn: sync(vm, "on_exit_widget"),
        on_tick_rfn: if with_tick { Some(sync(vm, "on_tick")) } else { None },
    }
}

fn read(vm: &rune::Vm, name: &str, data: &MainReturnData) -> i64 {
    let function = vm.lookup_function([name]).unwrap();
    function.call::<_, i64>((&data.event_arg,)).into_result().unwrap()
}

fn engine_with(modules: Vec<rune::Module>) -> ScriptEngine {
    let mut engine = ScriptEngine::new();
    engine.assign_ui_modules(modules);
    engine
}

fn counting_module(name: &str, counter: &Arc<AtomicUsize>) -> rune::Module {
    let mut module = rune::Module::with_crate("probe").unwrap();
    let counter = Arc::clone(counter);
    module
        .function(name, move || {
            counter.fetch_add(1, Ordering::SeqCst);
        })
        .build()
        .unwrap();
    module
}

#[test]
fn host_goes_from_uninitialized_to_compiled_to_running() {
    let mut engine = engine_with(Vec::new());
    assert_eq!(engine.state(), HostState::Uninitialized);
    assert!(engine.run_from_input("pub fn main() { 1 }").is_ok());
    assert_eq!(engine.state(), HostState::Compiled);
    assert!(engine.call_on_ui_pre_init().is_ok());
    assert_eq!(engine.state(), HostState::Compiled);
    assert!(engine.call_main().is_ok());
    assert_eq!(engine.state(), HostState::Running);
}

#[test]
fn script_finds_the_coercions_of_the_library() {
    let counter = Arc::new(AtomicUsize::new(0));
    let mut engine = engine_with(vec![counting_module("mark", &counter)]);
    let script = "pub fn main() { if std::itol(std::ltoi(4294967297)) == 1 { probe::mark() } }";
    assert!(engine.run_from_input(script).is_ok());
    assert!(engine.call_main().is_ok());
    assert_eq!(counter.load(Ordering::SeqCst), 1);
}

#[test]
fn nothing_is_compiled_without_modules() {
    let mut engine = ScriptEngine::new();
    let refused = engine.run_from_input("pub fn main() {}");
    assert!(matches!(refused, Err(EngineError::MissingModules)));
    assert_eq!(engine.state(), HostState::Uninitialized);
}

#[test]
fn script_is_compiled_once() {
    let mut engine = engine_with(Vec::new());
    assert!(engine.run_from_input("pub fn main() {}").is_ok());
    assert!(matches!(engine.run_from_input("pub fn main() {}"), Err(EngineError::WrongState)));
    assert_eq!(engine.state(), HostState::Compiled);
    assert!(engine.call_main().is_ok());
    assert!(matches!(engine.run_from_input("pub fn main() {}"), Err(EngineError::WrongState)));
    assert_eq!(engine.state(), HostState::Running);
}

#[test]
fn entry_point_is_called_once() {
    let counter = Arc::new(AtomicUsize::new(0));
    let mut engine = engine_with(vec![counting_module("mark", &counter)]);
    assert!(engine.run_from_input("pub fn main() { probe::mark() }").is_ok());
    assert_eq!(counter.load(Ordering::SeqCst), 0);
    assert!(engine.call_main().is_ok());
    assert_eq!(counter.load(Ordering::SeqCst), 1);
    assert!(matches!(engine.call_main(), Err(EngineError::WrongState)));
    assert_eq!(counter.load(Ordering::SeqCst), 1);
    assert_eq!(engine.state(), HostState::Running);
}

#[test]
fn nothing_is_called_before_the_script_is_compiled() {
    let mut engine = engine_with(Vec::new());
    assert!(matches!(engine.call_main(), Err(EngineError::WrongState)));
    assert!(matches!(engine.call_on_ui_pre_init(), Err(EngineError::WrongState)));
    assert_eq!(engine.state(), HostState::Uninitialized);
}

#[test]
fn script_with_an_error_is_refused_with_the_report() {
    let mut engine = engine_with(Vec::new());
    match engine.run_from_input("pub fn main() { missing() }") {
        Err(EngineError::Diagnostics(report)) => assert!(!report.is_empty()),
        _ => panic!("the script should have been refused"),
    }
    assert_eq!(engine.state(), HostState::Uninitialized);
    assert!(matches!(engine.call_main(), Err(EngineError::WrongState)));
    // Nothing was compiled, so another script can still be.
    assert!(engine.run_from_input("pub fn main() {}").is_ok());
    assert_eq!(engine.state(), HostState::Compiled);
}

#[test]
fn script_with_a_warning_is_refused_too() {
    let mut engine = engine_with(Vec::new());
    match engine.run_from_input("pub fn main() { `Hello World` }") {
        Err(EngineError::Diagnostics(report)) => assert!(report.contains("warning")),
        _ => panic!("the script should have been refused"),
    }
    assert_eq!(engine.state(), HostState::Uninitialized);
}

#[test]
fn failing_entry_point_ends_the_host() {
    let mut engine = engine_with(Vec::new());
    assert!(engine.run_from_input("pub fn main() { let zero = 0; 1 / zero }").is_ok());
    assert!(matches!(engine.call_main(), Err(EngineError::Vm(_))));
    assert_eq!(engine.state(), HostState::Terminated);
    assert!(matches!(engine.call_main(), Err(EngineError::WrongState)));
    assert!(matches!(engine.call_on_ui_pre_init(), Err(EngineError::WrongState)));
    assert!(matches!(engine.run_from_input("pub fn main() {}"), Err(EngineError::WrongState)));
    assert_eq!(engine.state(), HostState::Terminated);
}

#[test]
fn script_without_an_entry_point_ends_the_host_when_called() {
    let mut engine = engine_with(Vec::new());
    assert!(engine.run_from_input("pub fn other() {}").is_ok());
    assert!(matches!(engine.call_main(), Err(EngineError::Vm(_))));
    assert_eq!(engine.state(), HostState::Terminated);
}

#[test]
fn pre_init_hook_is_called_where_the_script_has_one() {
    let counter = Arc::new(AtomicUsize::new(0));
    let mut engine = engine_with(vec![counting_module("mark", &counter)]);
    let script = "pub fn on_ui_pre_init() { probe::mark() } pub fn main() {}";
    assert!(engine.run_from_input(script).is_ok());
    assert!(engine.call_on_ui_pre_init().is_ok());
    assert_eq!(counter.load(Ordering::SeqCst), 1);
    assert_eq!(engine.state(), HostState::Compiled);
    assert!(engine.call_main().is_ok());
    assert_eq!(counter.load(Ordering::SeqCst), 1);
}

#[test]
fn failing_pre_init_hook_ends_the_host() {
    let mut engine = engine_with(Vec::new());
    let script = "pub fn on_ui_pre_init() { let zero = 0; 1 / zero } pub fn main() {}";
    assert!(engine.run_from_input(script).is_ok());
    assert!(matches!(engine.call_on_ui_pre_init(), Err(EngineError::Vm(_))));
    assert_eq!(engine.state(), HostState::Terminated);
    assert!(matches!(engine.call_main(), Err(EngineError::WrongState)));
}

#[test]
fn first_assignment_of_modules_stands() {
    let first = Arc::new(AtomicUsize::new(0));
    let second = Arc::new(AtomicUsize::new(0));
    let mut engine = engine_with(vec![counting_module("first", &first)]);
    engine.assign_ui_modules(vec![counting_module("second", &second)]);
    assert!(matches!(
        engine.run_from_input("pub fn main() { probe::second() }"),
        Err(EngineError::Diagnostics(_))
    ));
    assert!(engine.run_from_input("pub fn main() { probe::first() }").is_ok());
    assert!(engine.call_main().is_ok());
    assert_eq!(first.load(Ordering::SeqCst), 1);
    assert_eq!(second.load(Ordering::SeqCst), 0);
}

#[test]
fn conflicting_modules_are_refused() {
    let counter = Arc::new(AtomicUsize::new(0));
    let modules = vec![counting_module("mark", &counter), counting_module("mark", &counter)];
    let mut engine = engine_with(modules);
    assert!(matches!(engine.run_from_input("pub fn main() {}"), Err(EngineError::Context(_))));
    assert_eq!(engine.state(), HostState::Uninitialized);
}

#[test]
fn judge_build_counts_a_build_only_without_a_report() {
    assert!(matches!(ScriptEngine::judge_build(Ok(7), None), Ok(7)));
    match ScriptEngine::judge_build(Ok(7), Some("warning".to_owned())) {
        Err(EngineError::Diagnostics(report)) => assert_eq!(report, "warning"),
        _ => panic!("a report refuses the build"),
    }
}

#[test]
fn build_modules_compiles_and_registers_the_root() {
    let counter = Arc::new(AtomicUsize::new(0));
    let mut engine = ScriptEngine::new();
    let mut builder: UIBuilder<u32> = UIBuilder::new();
    let script = "pub fn on_ui_pre_init() { probe::mark() } pub fn main() { probe::mark() }";
    let built =
        builder.build_modules(&mut engine, vec![counting_module("mark", &counter)], script, 9);
    assert!(built.is_ok());
    assert_eq!(engine.state(), HostState::Compiled);
    assert_eq!(counter.load(Ordering::SeqCst), 1);
    let root = builder.try_get_current_gtk_widget_as(WidgetShape::Container).unwrap();
    assert_eq!(root.identifier, "root");
    assert_eq!(root.handle, 9);
    assert!(engine.call_main().is_ok());
    assert_eq!(counter.load(Ordering::SeqCst), 2);
}

#[test]
fn build_modules_stops_at_the_first_failure() {
    let mut engine = ScriptEngine::new();
    let mut builder: UIBuilder<u32> = UIBuilder::new();
    let built = builder.build_modules(&mut engine, Vec::new(), "pub fn main() { missing() }", 9);
    assert!(matches!(built, Err(StartupError::Engine(EngineError::Diagnostics(_)))));
    assert!(builder.get_current_gtk_widget().is_none());
    assert_eq!(engine.state(), HostState::Uninitialized);

    let script = "pub fn on_ui_pre_init() { let zero = 0; 1 / zero } pub fn main() {}";
    let built = builder.build_modules(&mut engine, Vec::new(), script, 9);
    assert!(matches!(built, Err(StartupError::Engine(EngineError::Vm(_)))));
    assert!(builder.get_current_gtk_widget().is_none());
    assert_eq!(engine.state(), HostState::Terminated);

    let built = builder.build_modules(&mut engine, Vec::new(), "pub fn main() {}", 9);
    assert!(matches!(built, Err(StartupError::Engine(EngineError::WrongState))));
}

#[test]
fn build_modules_refuses_a_second_root() {
    let mut engine = ScriptEngine::new();
    let mut builder: UIBuilder<u32> = UIBuilder::new();
    assert_eq!(builder.add_root(1), Ok(()));
    let built = builder.build_modules(&mut engine, Vec::new(), "pub fn main() {}", 9);
    assert!(matches!(built, Err(StartupError::Builder(BuilderErrors::DuplicateIdentifier))));
    assert_eq!(builder.get_current_gtk_widget().map(|e| e.handle), Some(1));
    assert_eq!(engine.state(), HostState::Compiled);
}

#[test]
fn callbacks_are_stored_once() {
    let mut vm = compiled(CALLBACKS);
    let mut slot = None;
    assert!(ScriptEngine::init_runtime_config(&mut slot, callbacks(&mut vm, true)));
    assert!(slot.as_ref().unwrap().on_tick_rfn.is_some());
    assert!(!ScriptEngine::init_runtime_config(&mut slot, callbacks(&mut vm, false)));
    assert!(slot.as_ref().unwrap().on_tick_rfn.is_some());
}

#[test]
fn events_before_the_callbacks_are_declared_do_nothing() {
    assert!(!ScriptEngine::call_enter_exit(None, "ok", true));
    assert!(!ScriptEngine::call_enter_exit(None, "ok", false));
    assert!(!ScriptEngine::call_on_button_click(None, "ok"));
    assert_eq!(ScriptEngine::call_on_tick(None), TimerControl::Break);
    let mut loops = BackgroundLoops::new();
    assert_eq!(
        ScriptEngine::start_background_loop(None, &mut loops, "a".to_owned(), "f", 10),
        None
    );
    assert_eq!(loops.len(), 0);
}

#[test]
fn events_call_the_handler_with_the_context_and_the_identifier() {
    let mut vm = compiled(CALLBACKS);
    let data = callbacks(&mut vm, false);
    assert!(ScriptEngine::call_on_button_click(Some(&data), "ok"));
    assert!(ScriptEngine::call_on_button_click(Some(&data), "ok"));
    assert_eq!(read(&vm, "clicks", &data), 2);
    assert!(ScriptEngine::call_enter_exit(Some(&data), "title", true));
    assert_eq!(read(&vm, "entered", &data), 5);
    // The handler for leaving fails in this script, and the next event is
    // delivered all the same.
    assert!(!ScriptEngine::call_enter_exit(Some(&data), "title", false));
    assert!(ScriptEngine::call_enter_exit(Some(&data), "ab", true));
    assert_eq!(read(&vm, "entered", &data), 7);
    assert_eq!(read(&vm, "clicks", &data), 2);
}

#[test]
fn tick_stops_at_its_first_failure() {
    let mut vm = compiled(CALLBACKS);
    let data = callbacks(&mut vm, true);
    assert_eq!(ScriptEngine::call_on_tick(Some(&data)), TimerControl::Continue);
    assert_eq!(ScriptEngine::call_on_tick(Some(&data)), TimerControl::Continue);
    assert_eq!(ScriptEngine::call_on_tick(Some(&data)), TimerControl::Break);
    let without = callbacks(&mut vm, false);
    assert_eq!(ScriptEngine::call_on_tick(Some(&without)), TimerControl::Break);
}

#[test]
fn background_loop_that_fails_stops_alone() {
    let mut vm = compiled(CALLBACKS);
    let data = callbacks(&mut vm, false);
    let failing = sync(&vm, "on_tick");
    let steady = sync(&vm, "count");
    let mut loops = BackgroundLoops::new();
    let description = ScriptEngine::describe_function(&vm.lookup_function(["count"]).unwrap());
    let a = ScriptEngine::start_background_loop(Some(&data), &mut loops, "a".to_owned(), "f", 10);
    let b = ScriptEngine::start_background_loop(
        Some(&data),
        &mut loops,
        "b".to_owned(),
        &description,
        20,
    );
    assert_eq!((a, b), (Some(0), Some(1)));
    assert_eq!(loops.get(0).unwrap().label, "a [f]");
    assert_eq!(loops.get(1).unwrap().label, format!("b [{description}]"));
    assert_eq!(loops.get(1).unwrap().period_ms, 20);
    let fire_a = |loops: &mut BackgroundLoops| {
        loops.fired(0, ScriptEngine::call_background_loop(&data, &failing))
    };
    let fire_b = |loops: &mut BackgroundLoops| {
        loops.fired(1, ScriptEngine::call_background_loop(&data, &steady))
    };
    assert_eq!(fire_a(&mut loops), TimerControl::Continue);
    assert_eq!(fire_b(&mut loops), TimerControl::Continue);
    assert_eq!(fire_a(&mut loops), TimerControl::Continue);
    assert_eq!(fire_a(&mut loops), TimerControl::Break);
    assert!(!loops.get(0).unwrap().active);
    assert_eq!(fire_b(&mut loops), TimerControl::Continue);
    assert_eq!(fire_b(&mut loops), TimerControl::Continue);
    assert!(loops.get(1).unwrap().active);
    assert_eq!(read(&vm, "counted", &data), 3);
    assert_eq!(fire_a(&mut loops), TimerControl::Break);
}

#[test]
fn closure_that_captures_cannot_be_kept() {
    let script =
        "fn numbers() { yield 42; } pub fn main() { let held = numbers(); move || held.next() }";
    let mut vm = compiled(script);
    let value = vm.call(["main"], ()).unwrap();
    let closure: rune::runtime::Function = rune::from_value(value).unwrap();
    assert!(matches!(ScriptEngine::into_sync(closure), Err(EngineError::Vm(_))));
}

#[test]
fn tick_rate_is_the_scripts_where_it_gives_one() {
    let mut engine = engine_with(Vec::new());
    assert_eq!(engine.get_tick_rate(), None);
    assert!(engine.run_from_input("pub fn get_tick_rate() { 250 } pub fn main() {}").is_ok());
    assert_eq!(engine.get_tick_rate(), Some(250));
    assert_eq!(tick_period(engine.get_tick_rate()), 250);
    assert!(engine.call_main().is_ok());
    assert_eq!(engine.get_tick_rate(), Some(250));
    assert_eq!(engine.state(), HostState::Running);
}

#[test]
fn tick_rate_defaults_where_the_script_gives_none() {
    let mut engine = engine_with(Vec::new());
    assert!(engine.run_from_input("pub fn main() {}").is_ok());
    assert_eq!(engine.get_tick_rate(), None);
    assert_eq!(tick_period(engine.get_tick_rate()), 100);

    let mut engine = engine_with(Vec::new());
    assert!(engine.run_from_input("pub fn get_tick_rate() { -5 } pub fn main() {}").is_ok());
    assert_eq!(engine.get_tick_rate(), None);
    assert_eq!(engine.state(), HostState::Compiled);

    let mut engine = engine_with(Vec::new());
    assert!(engine.run_from_input("pub fn get_tick_rate() { \"fast\" } pub fn main() {}").is_ok());
    assert_eq!(engine.get_tick_rate(), None);
}

#[test]
fn default_engine_is_uninitialized() {
    let engine = ScriptEngine::default();
    assert_eq!(engine.state(), HostState::Uninitialized);
}

fn failure() -> rune::runtime::VmError {
    compiled("pub fn main() {}").call(["missing"], ()).unwrap_err()
}

#[test]
fn judge_call_keeps_what_was_returned_and_wraps_the_failure() {
    assert!(matches!(ScriptEngine::judge_call(Ok(7)), Ok(7)));
    let wrapped: Result<i64, EngineError> = ScriptEngine::judge_call(Err(failure()));
    assert!(matches!(wrapped, Err(EngineError::Vm(_))));
}

#[test]
fn judge_tick_rate_counts_only_an_answer() {
    assert_eq!(ScriptEngine::judge_tick_rate(None), None);
    assert_eq!(ScriptEngine::judge_tick_rate(Some(Ok(250))), Some(250));
    assert_eq!(ScriptEngine::judge_tick_rate(Some(Ok(0))), Some(0));
    assert_eq!(ScriptEngine::judge_tick_rate(Some(Err(failure()))), None);
}

#[test]
fn script_names_are_fixed() {
    assert_eq!(ScriptEngine::entry_point(), "main");
    assert_eq!(ScriptEngine::pre_init_hook(), "on_ui_pre_init");
    assert_eq!(ScriptEngine::tick_rate_function(), "get_tick_rate");
}

#[test]
fn report_exists_only_where_something_was_reported() {
    assert_eq!(ScriptEngine::report_of(true, "ignored".to_owned()), None);
    assert_eq!(ScriptEngine::report_of(true, String::new()), None);
    assert_eq!(ScriptEngine::report_of(false, "warning".to_owned()), Some("warning".to_owned()));
    assert_eq!(ScriptEngine::report_of(false, String::new()), Some(String::new()));
}

#[test]
fn compiled_script_stays_when_another_is_handed_in() {
    let counter = Arc::new(AtomicUsize::new(0));
    let mut engine = engine_with(vec![counting_module("mark", &counter)]);
    assert!(engine.run_from_input("pub fn main() { probe::mark() }").is_ok());
    assert!(matches!(
        engine.run_from_input("pub fn main() { probe::mark(); probe::mark() }"),
        Err(EngineError::WrongState)
    ));
    assert!(engine.call_main().is_ok());
    assert_eq!(counter.load(Ordering::SeqCst), 1);
}

#[test]
fn callbacks_are_put_together_only_where_all_were_kept() {
    let mut vm = compiled(CALLBACKS);
    let context = vm.call(["context"], ()).unwrap();
    let keep = |name: &str| Ok(sync(&vm, name));
    let data = MainReturnData::main_return_data(
        context.clone(),
        keep("on_button_click"),
        keep("on_enter_widget"),
        keep("on_exit_widget"),
        Some(keep("on_tick")),
    );
    let data = data.ok().unwrap();
    assert!(data.on_tick_rfn.is_some());
    assert!(ScriptEngine::call_on_button_click(Some(&data), "ok"));
    assert_eq!(read(&vm, "clicks", &data), 1);

    let data = MainReturnData::main_return_data(
        context.clone(),
        keep("on_button_click"),
        keep("on_enter_widget"),
        keep("on_exit_widget"),
        None,
    );
    assert!(data.ok().unwrap().on_tick_rfn.is_none());

    let lost = || Err(EngineError::Vm(failure()));
    let data = MainReturnData::main_return_data(
        context.clone(),
        keep("on_button_click"),
        lost(),
        keep("on_exit_widget"),
        None,
    );
    assert!(matches!(data, Err(EngineError::Vm(_))));
    let data = MainReturnData::main_return_data(
        context.clone(),
        keep("on_button_click"),
        keep("on_enter_widget"),
        keep("on_exit_widget"),
        Some(lost()),
    );
    assert!(matches!(data, Err(EngineError::Vm(_))));
    let data = MainReturnData::main_return_data(
        context,
        Err(EngineError::WrongState),
        lost(),
        keep("on_exit_widget"),
        None,
    );
    assert!(matches!(data, Err(EngineError::WrongState)));
}

#[test]
fn built_context_holds_the_librarys_and_the_assigned_functions() {
    let counter = Arc::new(AtomicUsize::new(0));
    let modules = vec![counting_module("mark", &counter)];
    let context = ScriptEngine::build_context(&modules).ok().unwrap();
    let mut sources =
        ScriptEngine::sources_of("pub fn main() { probe::mark(); std::itol(5) }").ok().unwrap();
    let unit = rune::prepare(&mut sources).with_context(&context).build().unwrap();
    let mut vm = rune::Vm::new(Arc::new(context.runtime().unwrap()), Arc::new(unit));
    let five: i64 = rune::from_value(vm.call(["main"], ()).unwrap()).unwrap();
    assert_eq!(five, 5);
    assert_eq!(counter.load(Ordering::SeqCst), 1);
}

#[test]
fn sources_hold_the_text_that_was_handed_in() {
    let context = rune::Context::with_default_modules().unwrap();
    let run = |text: &str| {
        let mut sources = ScriptEngine::sources_of(text).ok().unwrap();
        let unit = rune::prepare(&mut sources).with_context(&context).build().unwrap();
        let mut vm = rune::Vm::new(Arc::new(context.runtime().unwrap()), Arc::new(unit));
        rune::from_value::<i64>(vm.call(["main"], ()).unwrap()).unwrap()
    };
    assert_eq!(run("pub fn main() { 42 }"), 42);
    assert_eq!(run("pub fn main() { 7 }"), 7);
}
