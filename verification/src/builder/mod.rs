pub mod catalog;
pub mod fs_crate;
pub mod layer_shell_crate;
pub mod native;
pub mod stdext_crate;

use crate::builder::catalog::Target;
use crate::errors::{BuilderErrors, NO_FOCUSED_WIDGET};
use crate::script::dispatcher::{
    PointerCallback, PointerState, PointerTracker, pointers_step,
};
use crate::script::{
    EngineError, HostState, HostStep, ScriptEngine, compiled_from, same_program, step_allowed,
};
use crate::text::text_eq;
use vstd::hash_map::StringHashMap;
use vstd::prelude::*;

verus! {

/// The capability shapes under which a widget can be viewed.
#[derive(Debug, Clone, Copy, PartialEq, Eq, Structural)]
pub enum WidgetShape {
    /// A box that holds child widgets.
    Container,
    /// A text label.
    Label,
    /// A clickable button.
    Button,
}

/// One registered widget: its identifier, the toolkit's handle, the shape it was
/// created with and the container it was placed in.
pub struct WidgetEntry<W> {
    pub identifier: String,
    pub handle: W,
    pub shape: WidgetShape,
    pub parent: Option<String>,
}

/// What a [`WidgetEntry`] stands for in contracts.
pub struct WidgetRecord<W> {
    pub identifier: Seq<char>,
    pub handle: W,
    pub shape: WidgetShape,
    pub parent: Option<Seq<char>>,
}

impl<W> View for WidgetEntry<W> {
    type V = WidgetRecord<W>;

    open spec fn view(&self) -> WidgetRecord<W> {
        WidgetRecord {
            identifier: self.identifier@,
            handle: self.handle,
            shape: self.shape,
            parent: match self.parent {
                Some(p) => Some(p@),
                None => None,
            },
        }
    }
}

/// The identifier of the root container.
pub open spec fn root_identifier() -> Seq<char> {
    "root"@
}

/// The mathematical model of the widget registry: the registered widgets by
/// identifier, where the pointer is for each widget that follows it, and the
/// focus cursor.
#[verifier::reject_recursive_types(W)]
pub struct Registry<W> {
    pub widgets: Map<Seq<char>, WidgetRecord<W>>,
    /// The identifiers in the order in which they were registered.
    pub order: Seq<Seq<char>>,
    /// Where the pointer is, for each widget that follows it.
    pub pointers: Map<Seq<char>, PointerState>,
    pub focus: Option<Seq<char>>,
}

/// Those of `order` whose widget was placed in `parent`, in that order.
pub open spec fn children_in<W>(
    order: Seq<Seq<char>>,
    widgets: Map<Seq<char>, WidgetRecord<W>>,
    parent: Seq<char>,
) -> Seq<Seq<char>>
    decreases order.len(),
{
    if order.len() == 0 {
        Seq::empty()
    } else {
        let before = children_in(order.drop_last(), widgets, parent);
        if widgets.contains_key(order.last()) && widgets[order.last()].parent == Some(parent) {
            before.push(order.last())
        } else {
            before
        }
    }
}

impl<W> Registry<W> {
    /// The registry with no widget and no focus.
    pub open spec fn empty() -> Registry<W> {
        Registry {
            widgets: Map::empty(),
            order: Seq::empty(),
            pointers: Map::empty(),
            focus: None,
        }
    }

    /// Every entry is filed under its own identifier, the order lists each
    /// identifier once, the focus cursor and every parent name a registered
    /// widget, every parent is a container, and only registered widgets
    /// follow the pointer.
    pub open spec fn wf(self) -> bool {
        &&& forall|k: Seq<char>| #[trigger]
            self.widgets.contains_key(k) ==> self.widgets[k].identifier == k
        &&& forall|k: Seq<char>| #[trigger] self.widgets.contains_key(k) <==> self.order.contains(k)
        &&& self.order.no_duplicates()
        &&& forall|k: Seq<char>| #[trigger]
            self.pointers.contains_key(k) ==> self.widgets.contains_key(k)
        &&& self.focus matches Some(f) ==> self.widgets.contains_key(f)
        &&& forall|k: Seq<char>| #[trigger]
            self.widgets.contains_key(k) ==> (self.widgets[k].parent matches Some(p)
                ==> self.widgets.contains_key(p) && self.widgets[p].shape
                == WidgetShape::Container)
    }

    /// The children of `parent`, first child first.
    pub open spec fn children(self, parent: Seq<char>) -> Seq<Seq<char>> {
        children_in(self.order, self.widgets, parent)
    }

    /// The focused widget, if the focus cursor is set.
    pub open spec fn current(self) -> Option<WidgetRecord<W>> {
        match self.focus {
            Some(f) if self.widgets.contains_key(f) => Some(self.widgets[f]),
            _ => None,
        }
    }

    /// The focused widget seen under `shape`.
    pub open spec fn current_as(self, shape: WidgetShape) -> Result<
        WidgetRecord<W>,
        BuilderErrors,
    > {
        match self.current() {
            None => Err(BuilderErrors::GetCurrentWidgetError(NO_FOCUSED_WIDGET)),
            Some(w) => if w.shape == shape {
                Ok(w)
            } else {
                Err(BuilderErrors::WrongWidgetShape)
            },
        }
    }

    /// The widget that a function of the catalog works on: none where it
    /// works on the window or on the focus cursor, the focused container
    /// where it creates a widget, else the focused widget.
    pub open spec fn target(self, target: Target) -> Result<
        Option<WidgetRecord<W>>,
        BuilderErrors,
    > {
        match target {
            Target::Window | Target::Cursor => Ok(None),
            Target::NewBox(_) | Target::NewLabel | Target::NewButton => match self.current_as(
                WidgetShape::Container,
            ) {
                Ok(parent) => Ok(Some(parent)),
                Err(_) => Err(BuilderErrors::ParentNotContainer),
            },
            Target::Focused => match self.current() {
                Some(widget) => Ok(Some(widget)),
                None => Err(BuilderErrors::GetCurrentWidgetError(NO_FOCUSED_WIDGET)),
            },
            Target::FocusedAs(shape) => match self.current_as(shape) {
                Ok(widget) => Ok(Some(widget)),
                Err(e) => Err(e),
            },
        }
    }

    /// Whether the focused widget can take a new child.
    pub open spec fn can_add(self) -> bool {
        self.current_as(WidgetShape::Container) is Ok
    }

    /// The registry after `identifier` is registered under the focused
    /// container, or the reason why it cannot be.
    pub open spec fn register(self, identifier: Seq<char>, handle: W, shape: WidgetShape) -> Result<
        Registry<W>,
        BuilderErrors,
    > {
        if !self.can_add() {
            Err(BuilderErrors::ParentNotContainer)
        } else if self.widgets.contains_key(identifier) {
            Err(BuilderErrors::DuplicateIdentifier)
        } else {
            Ok(
                Registry {
                    widgets: self.widgets.insert(
                        identifier,
                        WidgetRecord { identifier, handle, shape, parent: self.focus },
                    ),
                    order: self.order.push(identifier),
                    pointers: self.pointers.insert(identifier, PointerState::Outside),
                    focus: self.focus,
                },
            )
        }
    }

    /// The registry after the root container is registered and focused, or
    /// the reason why it cannot be.
    pub open spec fn register_root(self, handle: W) -> Result<Registry<W>, BuilderErrors> {
        if self.widgets.contains_key(root_identifier()) {
            Err(BuilderErrors::DuplicateIdentifier)
        } else {
            Ok(
                Registry {
                    widgets: self.widgets.insert(
                        root_identifier(),
                        WidgetRecord {
                            identifier: root_identifier(),
                            handle,
                            shape: WidgetShape::Container,
                            parent: None,
                        },
                    ),
                    order: self.order.push(root_identifier()),
                    pointers: self.pointers,
                    focus: Some(root_identifier()),
                },
            )
        }
    }

    /// The registry after the toolkit said that the pointer entered or left
    /// the widget `identifier`, and the callback of the script to invoke.
    pub open spec fn pointer_moved(self, identifier: Seq<char>, entered: bool) -> (
        Registry<W>,
        Option<PointerCallback>,
    ) {
        (
            Registry { pointers: pointers_step(self.pointers, identifier, entered).0, ..self },
            pointers_step(self.pointers, identifier, entered).1,
        )
    }

    /// The registry after the focus cursor moves to `identifier`, or the
    /// reason why it cannot.
    pub open spec fn focus_on(self, identifier: Seq<char>) -> Result<Registry<W>, BuilderErrors> {
        if self.widgets.contains_key(identifier) {
            Ok(Registry { focus: Some(identifier), ..self })
        } else {
            Err(BuilderErrors::UnknownIdentifier)
        }
    }
}

/// Why the interface could not be set up.
pub enum StartupError {
    /// The host of the script failed.
    Engine(EngineError),
    /// The root container could not be registered.
    Builder(BuilderErrors),
}

/// The modules that stand once `modules` were assigned: those that were
/// assigned first.
pub open spec fn assigned(first: Option<Vec<rune::Module>>, modules: Vec<rune::Module>) -> Vec<
    rune::Module,
> {
    match first {
        Some(first) => first,
        None => modules,
    }
}

/// The steps that the host takes while the interface is set up, by how the
/// setting up ends: the script is compiled, then its hook is called. A
/// script that is not compiled is followed by no hook; a host that is not
/// at its beginning takes no step.
pub open spec fn startup_steps(built: Result<(), StartupError>) -> Seq<(HostStep, bool)> {
    match built {
        Err(StartupError::Engine(EngineError::WrongState)) => seq![],
        Err(StartupError::Engine(EngineError::Vm(_))) => seq![
            (HostStep::Compile, true),
            (HostStep::PreInit, false),
        ],
        Err(StartupError::Engine(_)) => seq![(HostStep::Compile, false)],
        _ => seq![(HostStep::Compile, true), (HostStep::PreInit, true)],
    }
}

/// UI Builder structure: the registry of all widgets that the script created
/// and the focus cursor that names the target of the next call.
#[verifier::reject_recursive_types(W)]
pub struct UIBuilder<W> {
    /// All created user widgets.
    user_widgets: StringHashMap<WidgetEntry<W>>,
    /// The identifiers of the widgets, oldest first.
    order: Vec<String>,
    /// Where the pointer is, for each widget but the root.
    pointers: PointerTracker,
    /// The currently focused user widget identifier.
    current_user_widget: Option<String>,
}

impl<W> View for UIBuilder<W> {
    type V = Registry<W>;

    closed spec fn view(&self) -> Registry<W> {
        Registry {
            widgets: Map::new(
                |k: Seq<char>| self.user_widgets@.contains_key(k),
                |k: Seq<char>| self.user_widgets@[k]@,
            ),
            order: Seq::new(self.order@.len(), |i: int| self.order@[i]@),
            pointers: self.pointers@,
            focus: match self.current_user_widget {
                Some(f) => Some(f@),
                None => None,
            },
        }
    }
}

impl<W> Default for UIBuilder<W> {
    /// A builder with no widget and no focus.
    fn default() -> (builder: Self)
        ensures
            builder@ == Registry::<W>::empty(),
            builder@.wf(),
    {
        UIBuilder::new()
    }
}

impl<W> UIBuilder<W> {
    /// A builder with no widget and no focus.
    pub fn new() -> (builder: Self)
        ensures
            builder@ == Registry::<W>::empty(),
            builder@.wf(),
    {
        let builder = UIBuilder {
            user_widgets: StringHashMap::new(),
            order: Vec::new(),
            pointers: PointerTracker::new(),
            current_user_widget: None,
        };
        assert(builder@.widgets =~= Map::empty());
        assert(builder@.order =~= Seq::empty());
        builder
    }

    /// Gets the entry of the currently focused widget.
    pub fn get_current_gtk_widget(&self) -> (current: Option<&WidgetEntry<W>>)
        ensures
            match current {
                Some(entry) => self@.current() == Some(entry@),
                None => self@.current() is None,
            },
    {
        match &self.current_user_widget {
            Some(identifier) => self.user_widgets.get(identifier.as_str()),
            None => None,
        }
    }

    /// Attempts to view the currently focused widget under `shape`.
    pub fn try_get_current_gtk_widget_as(&self, shape: WidgetShape) -> (current: Result<
        &WidgetEntry<W>,
        BuilderErrors,
    >)
        ensures
            match current {
                Ok(entry) => self@.current_as(shape) == Ok::<WidgetRecord<W>, BuilderErrors>(
                    entry@,
                ),
                Err(e) => self@.current_as(shape) == Err::<WidgetRecord<W>, BuilderErrors>(e),
            },
    {
        match self.get_current_gtk_widget() {
            None => Err(BuilderErrors::GetCurrentWidgetError(NO_FOCUSED_WIDGET)),
            Some(entry) => if entry.shape == shape {
                Ok(entry)
            } else {
                Err(BuilderErrors::WrongWidgetShape)
            },
        }
    }

    /// Checks if the currently focused widget can be viewed under `shape`.
    pub fn can_cast_current_widget_to(&self, shape: WidgetShape) -> (castable: bool)
        ensures
            castable == (self@.current_as(shape) is Ok),
    {
        self.try_get_current_gtk_widget_as(shape).is_ok()
    }

    /// Checks if the currently focused widget can hold child widgets.
    pub fn can_add_widgets_to_current(&self) -> (addable: bool)
        ensures
            addable == self@.can_add(),
    {
        self.can_cast_current_widget_to(WidgetShape::Container)
    }

    /// Finds the widget that a function of the catalog works on.
    pub fn resolve(&self, target: Target) -> (found: Result<
        Option<&WidgetEntry<W>>,
        BuilderErrors,
    >)
        ensures
            match found {
                Ok(Some(entry)) => self@.target(target) == Ok::<
                    Option<WidgetRecord<W>>,
                    BuilderErrors,
                >(Some(entry@)),
                Ok(None) => self@.target(target) == Ok::<Option<WidgetRecord<W>>, BuilderErrors>(
                    None,
                ),
                Err(e) => self@.target(target) == Err::<Option<WidgetRecord<W>>, BuilderErrors>(
                    e,
                ),
            },
    {
        match target {
            Target::Window | Target::Cursor => Ok(None),
            Target::NewBox(_) | Target::NewLabel | Target::NewButton => {
                match self.try_get_current_gtk_widget_as(WidgetShape::Container) {
                    Ok(parent) => Ok(Some(parent)),
                    Err(_) => Err(BuilderErrors::ParentNotContainer),
                }
            },
            Target::Focused => match self.get_current_gtk_widget() {
                Some(widget) => Ok(Some(widget)),
                None => Err(BuilderErrors::GetCurrentWidgetError(NO_FOCUSED_WIDGET)),
            },
            Target::FocusedAs(shape) => match self.try_get_current_gtk_widget_as(shape) {
                Ok(widget) => Ok(Some(widget)),
                Err(e) => Err(e),
            },
        }
    }

    /// Builds all the script modules before executing the main script file
    /// and presenting the UI: assigns `modules` to the engine, compiles
    /// `script_data` against them, calls the script's hook that runs before
    /// the interface is set up, then registers `root` as the root container
    /// and focuses it.
    ///
    /// The first step that fails ends the sequence: a script that is not
    /// compiled leaves the host as it was and its hook is not called, a
    /// hook that fails ends the host, and either way no root is registered.
    /// The caller then calls the script's entry point, during which the
    /// script's functions work on this builder.
    pub fn build_modules(
        &mut self,
        script_engine: &mut ScriptEngine,
        modules: Vec<rune::Module>,
        script_data: &str,
        root: W,
    ) -> (built: Result<(), StartupError>)
        requires
            old(self)@.wf(),
            old(script_engine).wf(),
        ensures
            final(self)@.wf(),
            final(script_engine).wf(),
            match built {
                Ok(()) => {
                    &&& old(script_engine).host_state() == HostState::Uninitialized
                    &&& final(script_engine).host_state() == HostState::Compiled
                    &&& old(self)@.register_root(root) == Ok::<Registry<W>, BuilderErrors>(
                        final(self)@,
                    )
                },
                Err(StartupError::Engine(error)) => {
                    &&& final(script_engine).host_state() == if error is Vm {
                        HostState::Terminated
                    } else {
                        old(script_engine).host_state()
                    }
                    &&& !(error is Vm) ==> same_program(*old(script_engine), *final(script_engine))
                    &&& final(self)@ == old(self)@
                },
                Err(StartupError::Builder(e)) => {
                    &&& final(script_engine).host_state() == HostState::Compiled
                    &&& old(self)@.register_root(root) == Err::<Registry<W>, BuilderErrors>(e)
                    &&& final(self)@ == old(self)@
                },
            },
            built matches Err(StartupError::Engine(EngineError::WrongState)) <==> !step_allowed(
                old(script_engine).host_state(),
                HostStep::Compile,
            ),
            !(built matches Err(StartupError::Engine(EngineError::MissingModules))),
            !(built matches Err(StartupError::Engine(_))) ==> compiled_from(
                *final(script_engine),
                assigned(old(script_engine).modules(), modules)@,
                script_data@,
            ),
            final(script_engine).steps() == old(script_engine).steps() + startup_steps(built),
            final(script_engine).modules() == if old(script_engine).host_state()
                == HostState::Uninitialized {
                Some(assigned(old(script_engine).modules(), modules))
            } else {
                old(script_engine).modules()
            },
    {
        if script_engine.state() != HostState::Uninitialized {
            return Err(StartupError::Engine(EngineError::WrongState));
        }
        script_engine.assign_ui_modules(modules);
        match script_engine.run_from_input(script_data) {
            Ok(()) => {},
            Err(error) => {
                return Err(StartupError::Engine(error));
            },
        }
        match script_engine.call_on_ui_pre_init() {
            Ok(()) => {},
            Err(error) => {
                return Err(StartupError::Engine(error));
            },
        }
        match self.add_root(root) {
            Ok(()) => Ok(()),
            Err(error) => Err(StartupError::Builder(error)),
        }
    }

    /// The identifiers of the children of `parent`, first child first.
    pub fn children_of(&self, parent: &str) -> (children: Vec<String>)
        ensures
            children@.len() == self@.children(parent@).len(),
            forall|i: int|
                0 <= i < children@.len() ==> #[trigger] children@[i]@ == self@.children(
                    parent@,
                )[i],
    {
        let mut children: Vec<String> = Vec::new();
        let mut index: usize = 0;
        while index < self.order.len()
            invariant
                index <= self.order.len(),
                children@.len() == children_in(
                    self@.order.take(index as int),
                    self@.widgets,
                    parent@,
                ).len(),
                forall|i: int|
                    0 <= i < children@.len() ==> #[trigger] children@[i]@ == children_in(
                        self@.order.take(index as int),
                        self@.widgets,
                        parent@,
                    )[i],
            decreases self.order.len() - index,
        {
            let identifier = &self.order[index];
            assert(self@.order.take(index + 1).drop_last() == self@.order.take(index as int));
            assert(self@.order.take(index + 1).last() == identifier@);
            let placed_here = match self.user_widgets.get(identifier.as_str()) {
                Some(entry) => match &entry.parent {
                    Some(placed_in) => text_eq(placed_in.as_str(), parent),
                    None => false,
                },
                None => false,
            };
            if placed_here {
                children.push(identifier.clone());
            }
            index += 1;
        }
        assert(self@.order.take(index as int) == self@.order);
        children
    }

    /// Adds a new widget to the UI, as the last child of the focused
    /// container, and starts to follow the pointer for it.
    ///
    /// The caller appends `widget` to the container that
    /// [`UIBuilder::try_get_current_gtk_widget_as`] then yields, and hands
    /// the toolkit's notifications for it to
    /// [`UIBuilder::connect_enter_exit_events`].
    pub fn add_widget(&mut self, identifier: String, widget: W, shape: WidgetShape) -> (added:
        Result<(), BuilderErrors>)
        requires
            old(self)@.wf(),
        ensures
            match old(self)@.register(identifier@, widget, shape) {
                Ok(registry) => added is Ok && final(self)@ == registry,
                Err(e) => added == Err::<(), BuilderErrors>(e) && final(self)@ == old(self)@,
            },
            final(self)@.wf(),
    {
        if !self.can_add_widgets_to_current() {
            return Err(BuilderErrors::ParentNotContainer);
        }
        if self.user_widgets.contains_key(identifier.as_str()) {
            return Err(BuilderErrors::DuplicateIdentifier);
        }
        let parent = match &self.current_user_widget {
            Some(focus) => Some(focus.clone()),
            None => None,
        };
        let ghost before = self@;
        let ghost key = identifier@;
        let entry = WidgetEntry { identifier: identifier.clone(), handle: widget, shape, parent };
        self.order.push(identifier.clone());
        self.pointers.track(identifier.clone());
        self.user_widgets.insert(identifier, entry);
        assert(self@.widgets =~= before.widgets.insert(key, entry@));
        assert(self@.order =~= before.order.push(key));
        proof {
            law_operations_keep_wf(before, key, widget, shape);
        }
        Ok(())
    }

    /// Adds the root container and focuses it, whatever the focus was.
    pub fn add_root(&mut self, widget: W) -> (added: Result<(), BuilderErrors>)
        requires
            old(self)@.wf(),
        ensures
            match old(self)@.register_root(widget) {
                Ok(registry) => added is Ok && final(self)@ == registry,
                Err(e) => added == Err::<(), BuilderErrors>(e) && final(self)@ == old(self)@,
            },
            final(self)@.wf(),
    {
        if self.user_widgets.contains_key("root") {
            return Err(BuilderErrors::DuplicateIdentifier);
        }
        let ghost before = self@;
        let entry = WidgetEntry {
            identifier: "root".to_owned(),
            handle: widget,
            shape: WidgetShape::Container,
            parent: None,
        };
        self.order.push("root".to_owned());
        self.user_widgets.insert("root".to_owned(), entry);
        assert(self@.widgets =~= before.widgets.insert(root_identifier(), entry@));
        assert(self@.order =~= before.order.push(root_identifier()));
        proof {
            law_operations_keep_wf(before, root_identifier(), widget, WidgetShape::Container);
        }
        self.current_user_widget = Some("root".to_owned());
        Ok(())
    }

    /// Follows one notification of the toolkit, that the pointer entered or
    /// left the widget `identifier`, and says which callback of the script
    /// to invoke for it, if any: the one for entering where the pointer was
    /// outside and went in, the one for leaving where it was inside and
    /// went out.
    pub fn connect_enter_exit_events(&mut self, identifier: String, entered: bool) -> (callback:
        Option<PointerCallback>)
        requires
            old(self)@.wf(),
        ensures
            (final(self)@, callback) == old(self)@.pointer_moved(identifier@, entered),
            final(self)@.wf(),
    {
        proof {
            law_following_the_pointer_keeps_wf(self@, identifier@, entered);
        }
        self.pointers.notified(identifier, entered)
    }

    /// Switches focus from one widget to another.
    pub fn set_focused_widget(&mut self, identifier: String) -> (focused: Result<
        (),
        BuilderErrors,
    >)
        requires
            old(self)@.wf(),
        ensures
            match old(self)@.focus_on(identifier@) {
                Ok(registry) => focused is Ok && final(self)@ == registry,
                Err(e) => focused == Err::<(), BuilderErrors>(e) && final(self)@ == old(self)@,
            },
            !old(self)@.widgets.contains_key(identifier@) ==> focused == Err::<(), BuilderErrors>(
                BuilderErrors::UnknownIdentifier,
            ) && final(self)@.focus == old(self)@.focus,
            final(self)@.wf(),
    {
        if !self.user_widgets.contains_key(identifier.as_str()) {
            return Err(BuilderErrors::UnknownIdentifier);
        }
        self.current_user_widget = Some(identifier);
        Ok(())
    }
}

/// Entering a widget under an identifier that is free keeps the order in step
/// with the widgets.
proof fn lemma_fresh_identifier<W>(
    registry: Registry<W>,
    identifier: Seq<char>,
    record: WidgetRecord<W>,
)
    requires
        registry.wf(),
        !registry.widgets.contains_key(identifier),
    ensures
        registry.order.push(identifier).no_duplicates(),
        forall|k: Seq<char>| #[trigger]
            registry.widgets.insert(identifier, record).contains_key(k) <==> registry.order.push(
                identifier,
            ).contains(k),
{
    let order = registry.order;
    let longer = order.push(identifier);
    assert(!order.contains(identifier));
    assert forall|i: int, j: int|
        0 <= i < longer.len() && 0 <= j < longer.len() && i != j implies longer[i] != longer[j] by {
        if i < order.len() {
            assert(order.contains(order[i]));
        }
        if j < order.len() {
            assert(order.contains(order[j]));
        }
    }
    assert forall|k: Seq<char>| #[trigger]
        registry.widgets.insert(identifier, record).contains_key(k) <==> longer.contains(k) by {
        if k == identifier {
            assert(longer[order.len() as int] == k);
        } else if registry.widgets.contains_key(k) {
            let i = choose|i: int| 0 <= i < order.len() && order[i] == k;
            assert(longer[i] == k);
        } else if longer.contains(k) {
            let i = choose|i: int| 0 <= i < longer.len() && longer[i] == k;
            assert(order[i] == k);
            assert(order.contains(k));
        }
    }
}

/// Following the pointer keeps a registry well formed, and changes nothing
/// but where the pointer is for the one widget.
pub proof fn law_following_the_pointer_keeps_wf<W>(
    registry: Registry<W>,
    identifier: Seq<char>,
    entered: bool,
)
    requires
        registry.wf(),
    ensures
        registry.pointer_moved(identifier, entered).0.wf(),
        registry.pointer_moved(identifier, entered).0.widgets == registry.widgets,
        registry.pointer_moved(identifier, entered).0.order == registry.order,
        registry.pointer_moved(identifier, entered).0.focus == registry.focus,
        forall|other: Seq<char>|
            other != identifier ==> (registry.pointer_moved(
                identifier,
                entered,
            ).0.pointers.contains_key(other) == registry.pointers.contains_key(other)
                && registry.pointer_moved(identifier, entered).0.pointers[other]
                == registry.pointers[other]),
{
}

/// Registering, focusing and registering the root keep a registry well formed.
pub proof fn law_operations_keep_wf<W>(
    registry: Registry<W>,
    identifier: Seq<char>,
    handle: W,
    shape: WidgetShape,
)
    requires
        registry.wf(),
    ensures
        registry.register(identifier, handle, shape) matches Ok(after) ==> after.wf(),
        registry.register_root(handle) matches Ok(after) ==> after.wf(),
        registry.focus_on(identifier) matches Ok(after) ==> after.wf(),
{
    if let Ok(after) = registry.register(identifier, handle, shape) {
        lemma_fresh_identifier(registry, identifier, after.widgets[identifier]);
    }
    if let Ok(after) = registry.register_root(handle) {
        lemma_fresh_identifier(registry, root_identifier(), after.widgets[root_identifier()]);
    }
}

/// A widget entered under an identifier that the order does not hold is
/// nobody's child among those of the order.
proof fn lemma_children_of_the_others<W>(
    order: Seq<Seq<char>>,
    widgets: Map<Seq<char>, WidgetRecord<W>>,
    identifier: Seq<char>,
    record: WidgetRecord<W>,
    parent: Seq<char>,
)
    requires
        !order.contains(identifier),
    ensures
        children_in(order, widgets.insert(identifier, record), parent) == children_in(
            order,
            widgets,
            parent,
        ),
    decreases order.len(),
{
    if order.len() > 0 {
        let shorter = order.drop_last();
        assert forall|k: Seq<char>| shorter.contains(k) implies order.contains(k) by {
            let i = choose|i: int| 0 <= i < shorter.len() && shorter[i] == k;
            assert(order[i] == k);
        }
        assert(order[order.len() - 1] == order.last());
        lemma_children_of_the_others(shorter, widgets, identifier, record, parent);
    }
}

/// A new widget becomes the last child of the focused container, and the
/// children of every other widget stay as they were.
pub proof fn law_new_widget_is_the_last_child<W>(
    registry: Registry<W>,
    identifier: Seq<char>,
    handle: W,
    shape: WidgetShape,
    parent: Seq<char>,
)
    requires
        registry.wf(),
        registry.register(identifier, handle, shape) is Ok,
    ensures
        ({
            let after = registry.register(identifier, handle, shape)->Ok_0;
            after.children(parent) == if registry.focus == Some(parent) {
                registry.children(parent).push(identifier)
            } else {
                registry.children(parent)
            }
        }),
{
    let after = registry.register(identifier, handle, shape)->Ok_0;
    assert(after.order.drop_last() == registry.order);
    lemma_children_of_the_others(
        registry.order,
        registry.widgets,
        identifier,
        after.widgets[identifier],
        parent,
    );
}

/// While the focus is on a container, registering an identifier a second time
/// fails as a duplicate and changes nothing: the entry still holds the handle
/// of the first registration.
pub proof fn law_second_registration_is_refused<W>(
    registry: Registry<W>,
    identifier: Seq<char>,
    first: W,
    first_shape: WidgetShape,
    second: W,
    second_shape: WidgetShape,
)
    requires
        registry.wf(),
        registry.can_add(),
    ensures
        ({
            let between = match registry.register(identifier, first, first_shape) {
                Ok(after) => after,
                Err(_) => registry,
            };
            &&& between.register(identifier, second, second_shape) == Err::<
                Registry<W>,
                BuilderErrors,
            >(BuilderErrors::DuplicateIdentifier)
            &&& between.widgets.contains_key(identifier)
            &&& registry.register(identifier, first, first_shape) is Ok
                ==> between.widgets[identifier].handle == first
                && between.widgets[identifier].shape == first_shape
        }),
{
}

/// Focusing an identifier that is not registered fails and leaves the focus
/// cursor where it was.
pub proof fn law_unknown_focus_is_refused<W>(registry: Registry<W>, identifier: Seq<char>)
    requires
        !registry.widgets.contains_key(identifier),
    ensures
        registry.focus_on(identifier) == Err::<Registry<W>, BuilderErrors>(
            BuilderErrors::UnknownIdentifier,
        ),
{
}

/// With the root container registered and nothing else, the focused widget
/// can be seen as a container and under no other shape.
pub proof fn law_root_is_a_container<W>(handle: W, shape: WidgetShape)
    ensures
        ({
            let registry = Registry::<W>::empty().register_root(handle);
            &&& registry is Ok
            &&& registry->Ok_0.current_as(shape) is Ok <==> shape == WidgetShape::Container
            &&& shape != WidgetShape::Container ==> registry->Ok_0.current_as(shape) == Err::<
                WidgetRecord<W>,
                BuilderErrors,
            >(BuilderErrors::WrongWidgetShape)
        }),
{
}

} // verus!
