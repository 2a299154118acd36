//! Which node is selected in the tree and which one the core runs: the
//! decisions behind the tree and the run button. A node is named by its
//! position in the tree: the group, then the node within the group.
use vstd::prelude::*;

verus! {

/// The node that the core runs, and the node selected in the tree.
/// `(0, -1)` in `is_running` names no node: nothing runs.
#[derive(Debug, Clone, Copy, PartialEq, Eq)]
pub struct Active {
    pub is_running: (i32, i32),
    pub local: (i32, i32),
}

/// What happens in the window.
#[derive(Debug, Clone, Copy, PartialEq, Eq)]
pub enum Event {
    /// A node row was activated (double click or Enter).
    RowActivated(i32, i32),
    /// The cursor moved to a node row.
    CursorMoved(i32, i32),
    /// The run button was clicked.
    RunClicked,
}

/// What the window must do after an event.
#[derive(Debug, Clone, Copy, PartialEq, Eq)]
pub enum Action {
    /// Stop the core, then start it for the node at this position.
    Run(i32, i32),
    /// Stop the core.
    Kill,
    /// Nothing.
    Nothing,
}

/// The label of the run button.
#[derive(Debug, Clone, Copy, PartialEq, Eq)]
pub enum ButtonLabel {
    Start,
    Stop,
}

/// The position that names no node.
pub open spec fn no_node() -> (i32, i32) {
    (0i32, -1i32)
}

/// The state when the window opens: nothing runs, the first node of the
/// first group is selected.
pub open spec fn initial_state() -> Active {
    Active { is_running: no_node(), local: (0i32, 0i32) }
}

/// The state when the window opens ([`initial_state`]).
pub fn initial() -> (a: Active)
    ensures
        a == initial_state(),
{
    Active { is_running: (0, -1), local: (0, 0) }
}

/// Whether a position can name a node of the tree.
pub open spec fn is_position(p: (i32, i32)) -> bool {
    p.0 >= 0 && p.1 >= 0
}

/// Whether the state can arise: the selection is a position of the tree.
pub open spec fn well_formed(a: Active) -> bool {
    is_position(a.local)
}

/// Whether an event names positions of the tree.
pub open spec fn event_well_formed(e: Event) -> bool {
    match e {
        Event::RowActivated(i, j) => is_position((i, j)),
        Event::CursorMoved(i, j) => is_position((i, j)),
        Event::RunClicked => true,
    }
}

/// The state, the run button's label and the action after `e`.
pub open spec fn spec_step(a: Active, e: Event) -> (Active, ButtonLabel, Action) {
    match e {
        Event::RowActivated(i, j) => (
            Active { is_running: (i, j), local: (i, j) },
            ButtonLabel::Stop,
            Action::Run(i, j),
        ),
        Event::CursorMoved(i, j) => (
            Active { is_running: a.is_running, local: (i, j) },
            if (i, j) != a.is_running {
                ButtonLabel::Start
            } else {
                ButtonLabel::Stop
            },
            Action::Nothing,
        ),
        Event::RunClicked => if a.is_running == a.local {
            (Active { is_running: no_node(), local: a.local }, ButtonLabel::Start, Action::Kill)
        } else {
            (
                Active { is_running: a.local, local: a.local },
                ButtonLabel::Stop,
                Action::Run(a.local.0, a.local.1),
            )
        },
    }
}

/// Decides what an event does. Activating a node runs it and selects it;
/// moving the cursor selects a node and shows whether it is the one that
/// runs; the run button stops the selected node when it runs, and else
/// runs it.
pub fn step(a: Active, e: Event) -> (r: (Active, ButtonLabel, Action))
    ensures
        r == spec_step(a, e),
        well_formed(a) && event_well_formed(e) ==> well_formed(r.0),
        well_formed(a) ==> (r.1 == ButtonLabel::Stop <==> r.0.is_running == r.0.local),
        r.2 matches Action::Run(i, j) ==> r.0.is_running == (i, j) && r.0.local == (i, j),
{
    match e {
        Event::RowActivated(i, j) => (
            Active { is_running: (i, j), local: (i, j) },
            ButtonLabel::Stop,
            Action::Run(i, j),
        ),
        Event::CursorMoved(i, j) => {
            let label = if i != a.is_running.0 || j != a.is_running.1 {
                ButtonLabel::Start
            } else {
                ButtonLabel::Stop
            };
            (Active { is_running: a.is_running, local: (i, j) }, label, Action::Nothing)
        },
        Event::RunClicked => {
            if a.is_running.0 == a.local.0 && a.is_running.1 == a.local.1 {
                (Active { is_running: (0, -1), local: a.local }, ButtonLabel::Start, Action::Kill)
            } else {
                (
                    Active { is_running: a.local, local: a.local },
                    ButtonLabel::Stop,
                    Action::Run(a.local.0, a.local.1),
                )
            }
        },
    }
}

/// The run button toggles whether the selected node runs, and keeps the
/// selection.
pub proof fn lemma_run_button_toggles(a: Active)
    requires
        well_formed(a),
    ensures
        spec_step(a, Event::RunClicked).0.local == a.local,
        (spec_step(a, Event::RunClicked).0.is_running == a.local) <==> (a.is_running != a.local),
{
}

/// Clicking the run button twice leaves the selection and whether it runs
/// as they were; when the selection ran, the state is the same.
pub proof fn lemma_run_button_twice(a: Active)
    requires
        well_formed(a),
    ensures
        ({
            let b = spec_step(spec_step(a, Event::RunClicked).0, Event::RunClicked).0;
            &&& b.local == a.local
            &&& (b.is_running == b.local <==> a.is_running == a.local)
            &&& a.is_running == a.local ==> b == a
        }),
{
}

/// Moving the cursor never starts or stops the core, keeps which node runs,
/// and selects the node it moved to.
pub proof fn lemma_cursor_keeps_running(a: Active, i: i32, j: i32)
    ensures
        spec_step(a, Event::CursorMoved(i, j)).0.is_running == a.is_running,
        spec_step(a, Event::CursorMoved(i, j)).0.local == (i, j),
        spec_step(a, Event::CursorMoved(i, j)).2 == Action::Nothing,
{
}

/// The state after the events `events`, in order, starting from `a`.
pub open spec fn after_events(a: Active, events: Seq<Event>) -> Active
    decreases events.len(),
{
    if events.len() == 0 {
        a
    } else {
        spec_step(after_events(a, events.drop_last()), events.last()).0
    }
}

/// The run button's label after the last of the events `events`.
pub open spec fn last_label(a: Active, events: Seq<Event>) -> ButtonLabel
    recommends
        events.len() > 0,
{
    spec_step(after_events(a, events.drop_last()), events.last()).1
}

/// Activating a node row runs that node and selects it, whatever the state
/// before: the outcome does not depend on which node ran or was selected.
pub proof fn lemma_row_activation_runs(a: Active, b: Active, i: i32, j: i32)
    ensures
        spec_step(a, Event::RowActivated(i, j)).0 == (Active { is_running: (i, j), local: (i, j) }),
        spec_step(a, Event::RowActivated(i, j)).1 == ButtonLabel::Stop,
        spec_step(a, Event::RowActivated(i, j)).2 == Action::Run(i, j),
        spec_step(a, Event::RowActivated(i, j)) == spec_step(b, Event::RowActivated(i, j)),
{
}

/// Every state that events naming tree positions lead to from the state
/// when the window opens is well formed, and after any such event the run
/// button shows "stop" exactly when the selected node is the one that runs.
pub proof fn lemma_reachable_states(events: Seq<Event>)
    requires
        forall|k: int| 0 <= k < events.len() ==> #[trigger] event_well_formed(events[k]),
    ensures
        well_formed(after_events(initial_state(), events)),
        events.len() > 0 ==> (last_label(initial_state(), events) == ButtonLabel::Stop <==> after_events(
            initial_state(),
            events,
        ).is_running == after_events(initial_state(), events).local),
    decreases events.len(),
{
    if events.len() > 0 {
        let prefix = events.drop_last();
        assert forall|k: int| 0 <= k < prefix.len() implies #[trigger] event_well_formed(
            prefix[k],
        ) by {
            assert(prefix[k] == events[k]);
        }
        lemma_reachable_states(prefix);
        assert(event_well_formed(events[events.len() - 1]));
    }
}

} // verus!
