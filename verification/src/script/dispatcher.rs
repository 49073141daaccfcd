use vstd::hash_map::StringHashMap;
use vstd::prelude::*;
use vstd::string::StringExecFns;

verus! {

/// The period, in milliseconds, of the global tick of a script that does not
/// say how often it wants to be called.
pub const DEFAULT_TICK_MS: u64 = 100;

/// What becomes of a timer after it has fired.
#[derive(Debug, Clone, Copy, PartialEq, Eq, Structural)]
pub enum TimerControl {
    /// The timer fires again after its period.
    Continue,
    /// The timer is not scheduled again.
    Break,
}

/// Where the pointer is, seen from one widget.
#[derive(Debug, Clone, Copy, PartialEq, Eq, Structural)]
pub enum PointerState {
    Outside,
    Inside,
}

/// The callbacks of the script that follow the pointer.
#[derive(Debug, Clone, Copy, PartialEq, Eq, Structural)]
pub enum PointerCallback {
    /// `on_enter_widget`
    Enter,
    /// `on_exit_widget`
    Exit,
}

/// The state of a widget after the toolkit said that the pointer entered or
/// left it, and the callback to invoke where that changed the state.
pub open spec fn pointer_step(state: PointerState, entered: bool) -> (
    PointerState,
    Option<PointerCallback>,
) {
    match (state, entered) {
        (PointerState::Outside, true) => (PointerState::Inside, Some(PointerCallback::Enter)),
        (PointerState::Inside, false) => (PointerState::Outside, Some(PointerCallback::Exit)),
        (PointerState::Outside, false) => (PointerState::Outside, None),
        (PointerState::Inside, true) => (PointerState::Inside, None),
    }
}

impl PointerState {
    /// Follows one notification of the toolkit.
    pub fn notified(self, entered: bool) -> (step: (PointerState, Option<PointerCallback>))
        ensures
            step == pointer_step(self, entered),
    {
        match (self, entered) {
            (PointerState::Outside, true) => (PointerState::Inside, Some(PointerCallback::Enter)),
            (PointerState::Inside, false) => (PointerState::Outside, Some(PointerCallback::Exit)),
            (PointerState::Outside, false) => (PointerState::Outside, None),
            (PointerState::Inside, true) => (PointerState::Inside, None),
        }
    }
}

/// What follows where the toolkit says that the pointer entered or left the
/// widget `identifier`: the states afterwards and the callback to invoke. A
/// widget that is not tracked has no state and gets no callback.
pub open spec fn pointers_step(
    states: Map<Seq<char>, PointerState>,
    identifier: Seq<char>,
    entered: bool,
) -> (Map<Seq<char>, PointerState>, Option<PointerCallback>) {
    if states.contains_key(identifier) {
        (
            states.insert(identifier, pointer_step(states[identifier], entered).0),
            pointer_step(states[identifier], entered).1,
        )
    } else {
        (states, None)
    }
}

/// The callbacks that a widget's notifications lead to, in their order, for
/// a widget that starts in `state`.
pub open spec fn pointer_callbacks(state: PointerState, notifications: Seq<bool>) -> Seq<
    PointerCallback,
>
    decreases notifications.len(),
{
    if notifications.len() == 0 {
        Seq::empty()
    } else {
        let before = pointer_callbacks(state, notifications.drop_last());
        let earlier = pointer_after(state, notifications.drop_last());
        match pointer_step(earlier, notifications.last()).1 {
            Some(callback) => before.push(callback),
            None => before,
        }
    }
}

/// The state of a widget that starts in `state`, after its notifications.
pub open spec fn pointer_after(state: PointerState, notifications: Seq<bool>) -> PointerState
    decreases notifications.len(),
{
    if notifications.len() == 0 {
        state
    } else {
        pointer_step(pointer_after(state, notifications.drop_last()), notifications.last()).0
    }
}

/// Where the pointer is, for each widget whose pointer is tracked.
pub struct PointerTracker {
    states: StringHashMap<PointerState>,
}

impl View for PointerTracker {
    type V = Map<Seq<char>, PointerState>;

    closed spec fn view(&self) -> Map<Seq<char>, PointerState> {
        self.states@
    }
}

impl PointerTracker {
    /// A tracker that tracks no widget.
    pub fn new() -> (tracker: Self)
        ensures
            tracker@ == Map::<Seq<char>, PointerState>::empty(),
    {
        PointerTracker { states: StringHashMap::new() }
    }

    /// Starts to track the pointer for the widget `identifier`, with the
    /// pointer outside.
    pub fn track(&mut self, identifier: String)
        ensures
            final(self)@ == old(self)@.insert(identifier@, PointerState::Outside),
    {
        self.states.insert(identifier, PointerState::Outside);
    }

    /// Where the pointer is, seen from the widget `identifier`, if the
    /// widget is tracked.
    pub fn state(&self, identifier: &str) -> (state: Option<PointerState>)
        ensures
            state is Some == self@.contains_key(identifier@),
            state matches Some(s) ==> s == self@[identifier@],
    {
        match self.states.get(identifier) {
            Some(state) => Some(*state),
            None => None,
        }
    }

    /// Follows one notification of the toolkit for the widget `identifier`
    /// and says which callback of the script to invoke, if any.
    pub fn notified(&mut self, identifier: String, entered: bool) -> (callback: Option<
        PointerCallback,
    >)
        ensures
            (final(self)@, callback) == pointers_step(old(self)@, identifier@, entered),
    {
        match self.state(identifier.as_str()) {
            Some(state) => {
                let (next, callback) = state.notified(entered);
                self.states.insert(identifier, next);
                callback
            },
            None => None,
        }
    }
}

impl TimerControl {
    /// A timer goes on exactly as long as its callback succeeds.
    pub fn after(succeeded: bool) -> (control: TimerControl)
        ensures
            control == if succeeded {
                TimerControl::Continue
            } else {
                TimerControl::Break
            },
    {
        if succeeded {
            TimerControl::Continue
        } else {
            TimerControl::Break
        }
    }
}

/// The period of the global tick: the script's own rate where it gives one,
/// else the default.
pub fn tick_period(rate: Option<u64>) -> (period: u64)
    ensures
        period == match rate {
            Some(ms) => ms,
            None => DEFAULT_TICK_MS,
        },
{
    match rate {
        Some(ms) => ms,
        None => DEFAULT_TICK_MS,
    }
}

/// The label of a background loop: its identifier, then the description of
/// its callback in square brackets.
pub open spec fn loop_label(identifier: Seq<char>, callback: Seq<char>) -> Seq<char> {
    identifier + " ["@ + callback + "]"@
}

/// One background loop: its label, its period and whether it is still
/// scheduled.
pub struct BackgroundLoop {
    pub label: String,
    pub period_ms: u64,
    pub active: bool,
}

/// What a [`BackgroundLoop`] stands for in contracts.
pub struct LoopRecord {
    pub label: Seq<char>,
    pub period_ms: u64,
    pub active: bool,
}

impl View for BackgroundLoop {
    type V = LoopRecord;

    open spec fn view(&self) -> LoopRecord {
        LoopRecord { label: self.label@, period_ms: self.period_ms, active: self.active }
    }
}

/// The loops after the loop `index` has fired and its callback succeeded or
/// failed: a failure stops that loop, and no other loop changes.
pub open spec fn loops_after(loops: Seq<LoopRecord>, index: int, succeeded: bool) -> Seq<
    LoopRecord,
> {
    if 0 <= index < loops.len() && !succeeded {
        loops.update(index, LoopRecord { active: false, ..loops[index] })
    } else {
        loops
    }
}

/// Whether the loop `index` is scheduled again after it has fired.
pub open spec fn loop_goes_on(loops: Seq<LoopRecord>, index: int, succeeded: bool) -> bool {
    0 <= index < loops.len() && loops[index].active && succeeded
}

/// Whether `after` and `control` are what follows where the loop `index` of
/// `before` fires and its callback succeeds or fails.
pub open spec fn fired_with(
    before: Seq<LoopRecord>,
    index: int,
    succeeded: bool,
    after: Seq<LoopRecord>,
    control: TimerControl,
) -> bool {
    &&& after == loops_after(before, index, succeeded)
    &&& control == if loop_goes_on(before, index, succeeded) {
        TimerControl::Continue
    } else {
        TimerControl::Break
    }
}

/// The loops after a sequence of firings, each with the index of the loop
/// and the outcome of its callback.
pub open spec fn loops_after_all(loops: Seq<LoopRecord>, firings: Seq<(int, bool)>) -> Seq<
    LoopRecord,
>
    decreases firings.len(),
{
    if firings.len() == 0 {
        loops
    } else {
        loops_after(
            loops_after_all(loops, firings.drop_last()),
            firings.last().0,
            firings.last().1,
        )
    }
}

/// The background loops that the script has started. None is ever removed.
pub struct BackgroundLoops {
    loops: Vec<BackgroundLoop>,
}

impl View for BackgroundLoops {
    type V = Seq<LoopRecord>;

    closed spec fn view(&self) -> Seq<LoopRecord> {
        Seq::new(self.loops@.len(), |i: int| self.loops@[i]@)
    }
}

impl BackgroundLoops {
    /// No loops.
    pub fn new() -> (loops: Self)
        ensures
            loops@ == Seq::<LoopRecord>::empty(),
    {
        BackgroundLoops { loops: Vec::new() }
    }

    /// The number of loops that were started.
    pub fn len(&self) -> (count: usize)
        ensures
            count == self@.len(),
    {
        self.loops.len()
    }

    /// The loop `index`, if there is one.
    pub fn get(&self, index: usize) -> (found: Option<&BackgroundLoop>)
        ensures
            found is Some == (index < self@.len()),
            found matches Some(l) ==> l@ == self@[index as int],
    {
        if index < self.loops.len() {
            Some(&self.loops[index])
        } else {
            None
        }
    }

    /// Enters a loop for the callback that `callback` describes, scheduled
    /// from now on, and hands back its index.
    pub fn start(&mut self, identifier: String, callback: &str, period_ms: u64) -> (index: usize)
        ensures
            index == old(self)@.len(),
            final(self)@ == old(self)@.push(
                LoopRecord { label: loop_label(identifier@, callback@), period_ms, active: true },
            ),
    {
        let index: usize = self.loops.len();
        let label = identifier.concat(" [").concat(callback).concat("]");
        self.loops.push(BackgroundLoop { label, period_ms, active: true });
        index
    }

    /// Records that the loop `index` has fired and that its callback
    /// succeeded or failed, and says what becomes of its timer.
    pub fn fired(&mut self, index: usize, succeeded: bool) -> (control: TimerControl)
        ensures
            fired_with(old(self)@, index as int, succeeded, final(self)@, control),
    {
        if index >= self.loops.len() {
            return TimerControl::Break;
        }
        if succeeded {
            return TimerControl::after(self.loops[index].active);
        }
        let ghost before = self@;
        let stopped = BackgroundLoop {
            label: self.loops[index].label.clone(),
            period_ms: self.loops[index].period_ms,
            active: false,
        };
        self.loops.set(index, stopped);
        assert(self@ =~= loops_after(before, index as int, succeeded));
        TimerControl::Break
    }
}

/// A loop whose callback has failed is never scheduled again, whatever fires
/// afterwards and however it ends.
pub proof fn law_failed_loop_stays_stopped(
    loops: Seq<LoopRecord>,
    index: int,
    firings: Seq<(int, bool)>,
    again: bool,
)
    requires
        0 <= index < loops.len(),
    ensures
        ({
            let later = loops_after_all(loops_after(loops, index, false), firings);
            &&& later.len() == loops.len()
            &&& !later[index].active
            &&& !loop_goes_on(later, index, again)
        }),
    decreases firings.len(),
{
    if firings.len() > 0 {
        law_failed_loop_stays_stopped(loops, index, firings.drop_last(), again);
    }
}

/// What one loop does leaves every other loop as it was: the failure of one
/// stops no other.
pub proof fn law_loops_are_independent(
    loops: Seq<LoopRecord>,
    index: int,
    succeeded: bool,
    other: int,
)
    requires
        0 <= other < loops.len(),
        other != index,
    ensures
        loops_after(loops, index, succeeded).len() == loops.len(),
        loops_after(loops, index, succeeded)[other] == loops[other],
        forall|ok: bool|
            loop_goes_on(loops_after(loops, index, succeeded), other, ok) == loop_goes_on(
                loops,
                other,
                ok,
            ),
{
}

/// After each notification a widget is inside exactly where the pointer
/// went in, and the callbacks of a widget that starts outside take turns:
/// entering first, then leaving, and so on.
pub proof fn law_pointer_callbacks_take_turns(notifications: Seq<bool>)
    ensures
        notifications.len() > 0 ==> (pointer_after(PointerState::Outside, notifications)
            == PointerState::Inside <==> notifications.last()),
        forall|i: int|
            0 <= i < pointer_callbacks(PointerState::Outside, notifications).len()
                ==> #[trigger] pointer_callbacks(PointerState::Outside, notifications)[i] == if i
                % 2 == 0 {
                PointerCallback::Enter
            } else {
                PointerCallback::Exit
            },
        pointer_after(PointerState::Outside, notifications) == PointerState::Inside
            <==> pointer_callbacks(PointerState::Outside, notifications).len() % 2 == 1,
    decreases notifications.len(),
{
    if notifications.len() > 0 {
        law_pointer_callbacks_take_turns(notifications.drop_last());
    }
}

} // verus!
