//! The cluster table component: a selectable table of the listed clusters,
//! driven by the `j`/`k` navigation keys.

use vstd::prelude::*;

use crate::action::Action;
use crate::events::{Event, KeyCode, KeyEvent};
use crate::state::{ClusterItem, ClusterItemModel, State, StateModel};

verus! {

/// The table's projection of the global state: one row per cluster ARN, in
/// the order the listing returned them.
pub open spec fn clusters_props_of(s: StateModel) -> Seq<ClusterItemModel> {
    s.cluster_arns.map_values(|arn: Seq<char>| crate::state::cluster_item_of(arn))
}

/// The cluster table's read-only view state, recomputed wholesale from each
/// state snapshot.
#[derive(Debug, PartialEq)]
pub struct Props {
    pub clusters: Vec<ClusterItem>,
}

impl Props {
    /// Projects a state snapshot into the table's rows. The projection is a
    /// pure function of the snapshot — it reads through a shared reference
    /// and cannot mutate the state.
    pub fn from(state: &State) -> (props: Props)
        ensures
            props.clusters.deep_view() == clusters_props_of(state@),
    {
        let mut clusters: Vec<ClusterItem> = Vec::new();
        let mut i: usize = 0;
        while i < state.cluster_arns.len()
            invariant
                i <= state.cluster_arns.len(),
                clusters.deep_view() =~= clusters_props_of(state@).subrange(0, i as int),
            decreases state.cluster_arns.len() - i,
        {
            let item = ClusterItem::from(state.cluster_arns[i].clone());
            let ghost before = clusters.deep_view();
            proof {
                assert(state.cluster_arns.deep_view()[i as int] == state.cluster_arns@[
                    i as int
                ]@);
                assert(item@ == clusters_props_of(state@)[i as int]);
                assert(before.push(item@) =~= clusters_props_of(state@).subrange(0, i + 1));
            }
            clusters.push(item);
            proof {
                assert(clusters.deep_view() =~= before.push(item@));
            }
            i += 1;
        }
        proof {
            assert(clusters.deep_view() =~= clusters_props_of(state@));
        }
        Props { clusters }
    }
}

/// Projecting equal state snapshots yields equal rows.
pub proof fn lemma_clusters_projection_pure(s1: StateModel, s2: StateModel)
    requires
        s1 == s2,
    ensures
        clusters_props_of(s1) == clusters_props_of(s2),
{
}

/// The table's view-local selection cursor: the index of the highlighted
/// row, if any. It is not part of the global state.
pub struct TableState {
    selected: Option<usize>,
}

impl TableState {
    /// The selected index, if any.
    pub closed spec fn selected_of(&self) -> Option<int> {
        match self.selected {
            Some(i) => Some(i as int),
            None => None,
        }
    }

    /// The selected index, if any.
    pub fn selected(&self) -> (sel: Option<usize>)
        ensures
            sel matches Some(i) ==> self.selected_of() == Some(i as int),
            sel is None <==> self.selected_of() is None,
    {
        self.selected
    }
}

/// Where `select_next` moves the cursor: on an empty list it stays unset; on
/// a non-empty list an unset cursor lands on the first row and a set cursor
/// advances one row, saturating at the last row.
pub open spec fn next_selection(sel: Option<int>, len: int) -> Option<int> {
    if len == 0 {
        sel
    } else {
        match sel {
            None => Some(0),
            Some(i) => if i >= len - 1 {
                Some(i)
            } else {
                Some(i + 1)
            },
        }
    }
}

/// Where `select_previous` moves the cursor: on an empty list it stays
/// unset; on a non-empty list an unset cursor lands on the last row and a
/// set cursor steps back one row, saturating at the first row.
pub open spec fn previous_selection(sel: Option<int>, len: int) -> Option<int> {
    if len == 0 {
        sel
    } else {
        match sel {
            None => Some(len - 1),
            Some(i) => if i == 0 {
                Some(i)
            } else {
                Some(i - 1)
            },
        }
    }
}

/// Where the cursor stands after the row list is replaced: a cursor past the
/// new end is pulled back to the last row, and any cursor is cleared when
/// the new list is empty. The cursor is an index, not a stable identity, so
/// it is clamped rather than chased across a refetch.
pub open spec fn clamped_selection(sel: Option<int>, len: int) -> Option<int> {
    match sel {
        None => None,
        Some(i) => if len == 0 {
            None
        } else if i < len {
            Some(i)
        } else {
            Some(len - 1)
        },
    }
}

/// What a key press does to the cursor: `j` moves down, `k` moves up, every
/// other key leaves it alone; repeats and releases never move it.
pub open spec fn key_selection(sel: Option<int>, len: int, key: KeyEvent) -> Option<int> {
    if key.kind is Press {
        if key.code == KeyCode::Char('j') {
            next_selection(sel, len)
        } else if key.code == KeyCode::Char('k') {
            previous_selection(sel, len)
        } else {
            sel
        }
    } else {
        sel
    }
}

/// The cluster table component: the projected rows plus the view-local
/// cursor.
pub struct Clusters {
    action_registered: bool,
    props: Props,
    table_state: TableState,
}

impl Clusters {
    /// The cursor is always unset or within the current row list.
    pub open spec fn wf(&self) -> bool {
        self.selection_of() matches Some(i) ==> 0 <= i < self.row_count()
    }

    /// Whether an action handler has been registered with this component.
    pub closed spec fn registered(&self) -> bool {
        self.action_registered
    }

    /// The table's current rows.
    pub closed spec fn rows_of(&self) -> Seq<ClusterItemModel> {
        self.props.clusters.deep_view()
    }

    /// The number of rows.
    pub open spec fn row_count(&self) -> int {
        self.rows_of().len() as int
    }

    /// The cursor position, if any.
    pub closed spec fn selection_of(&self) -> Option<int> {
        self.table_state.selected_of()
    }

    /// A fresh table: no rows, no selection, no handler registered.
    pub fn new() -> (table: Clusters)
        ensures
            table.wf(),
            !table.registered(),
            table.rows_of() =~= Seq::<ClusterItemModel>::empty(),
            table.selection_of() is None,
    {
        Clusters {
            action_registered: false,
            props: Props { clusters: Vec::new() },
            table_state: TableState { selected: None },
        }
    }

    /// Moves the cursor one row down, saturating at the last row; a no-op on
    /// an empty list.
    pub fn next(&mut self)
        requires
            old(self).wf(),
        ensures
            final(self).wf(),
            final(self).selection_of() == next_selection(
                old(self).selection_of(),
                old(self).row_count(),
            ),
            final(self).rows_of() == old(self).rows_of(),
            final(self).registered() == old(self).registered(),
    {
        let len = self.props.clusters.len();
        if len == 0 {
            return ;
        }
        let i = match self.table_state.selected {
            Some(i) => if i >= len - 1 {
                i
            } else {
                i + 1
            },
            None => 0,
        };
        self.table_state.selected = Some(i);
    }

    /// Moves the cursor one row up, saturating at the first row; an unset
    /// cursor lands on the last row; a no-op on an empty list.
    pub fn previous(&mut self)
        requires
            old(self).wf(),
        ensures
            final(self).wf(),
            final(self).selection_of() == previous_selection(
                old(self).selection_of(),
                old(self).row_count(),
            ),
            final(self).rows_of() == old(self).rows_of(),
            final(self).registered() == old(self).registered(),
    {
        let len = self.props.clusters.len();
        if len == 0 {
            return ;
        }
        let i = match self.table_state.selected {
            Some(i) => if i == 0 {
                i
            } else {
                i - 1
            },
            None => len - 1,
        };
        self.table_state.selected = Some(i);
    }

    /// Records that the runtime's action channel is connected, so `init` may
    /// enqueue its fetch.
    pub fn register_action_handler(&mut self)
        ensures
            final(self).registered(),
            final(self).rows_of() == old(self).rows_of(),
            final(self).selection_of() == old(self).selection_of(),
            old(self).wf() ==> final(self).wf(),
    {
        self.action_registered = true;
    }

    /// One-time setup: once registered, asks for the cluster list to be
    /// fetched.
    pub fn init(&self) -> (action: Option<Action>)
        ensures
            action == (if self.registered() {
                Some(Action::GetClusters)
            } else {
                None::<Action>
            }),
    {
        if self.action_registered {
            Some(Action::GetClusters)
        } else {
            None
        }
    }

    /// Replaces the rows with the projection of the new snapshot and clamps
    /// the cursor into the new list.
    pub fn set_state(&mut self, state: &State)
        ensures
            final(self).wf(),
            final(self).rows_of() == clusters_props_of(state@),
            final(self).selection_of() == clamped_selection(
                old(self).selection_of(),
                clusters_props_of(state@).len() as int,
            ),
            final(self).registered() == old(self).registered(),
    {
        self.props = Props::from(state);
        let len = self.props.clusters.len();
        match self.table_state.selected {
            Some(i) => {
                if len == 0 {
                    self.table_state.selected = None;
                } else if i >= len {
                    self.table_state.selected = Some(len - 1);
                }
            },
            None => (),
        }
    }

    /// Forwarded actions pass through unchanged.
    pub fn update(&self, action: Action) -> (echoed: Action)
        ensures
            echoed == action,
    {
        action
    }

    /// Handles a forwarded key event: `j` and `k` move the cursor, nothing
    /// else reacts, and the answer is always `Noop` — navigation never asks
    /// the store for work.
    pub fn handle_key_event(&mut self, key: KeyEvent) -> (action: Action)
        requires
            old(self).wf(),
        ensures
            final(self).wf(),
            action is Noop,
            final(self).selection_of() == key_selection(
                old(self).selection_of(),
                old(self).row_count(),
                key,
            ),
            final(self).rows_of() == old(self).rows_of(),
            final(self).registered() == old(self).registered(),
    {
        match key.kind {
            crate::events::KeyEventKind::Press => {
                match key.code {
                    KeyCode::Char(ch) => {
                        if ch == 'j' {
                            self.next();
                        } else if ch == 'k' {
                            self.previous();
                        }
                    },
                    KeyCode::Other => (),
                }
            },
            _ => (),
        }
        Action::Noop
    }

    /// Forwarded events: key events go to the key handler, everything else
    /// yields `Noop` and changes nothing.
    pub fn handle_events(&mut self, event: &Event) -> (action: Action)
        requires
            old(self).wf(),
        ensures
            final(self).wf(),
            action is Noop,
            final(self).selection_of() == (match *event {
                Event::Key(key) => key_selection(
                    old(self).selection_of(),
                    old(self).row_count(),
                    key,
                ),
                _ => old(self).selection_of(),
            }),
            final(self).rows_of() == old(self).rows_of(),
            final(self).registered() == old(self).registered(),
    {
        match event {
            Event::Key(key) => self.handle_key_event(*key),
            _ => Action::Noop,
        }
    }

    /// The rows to render.
    pub fn items(&self) -> (items: &Vec<ClusterItem>)
        ensures
            items.deep_view() == self.rows_of(),
    {
        &self.props.clusters
    }

    /// The current cursor position, for rendering the highlight.
    pub fn selection(&self) -> (sel: Option<usize>)
        ensures
            sel matches Some(i) ==> self.selection_of() == Some(i as int),
            sel is None <==> self.selection_of() is None,
    {
        self.table_state.selected()
    }
}

} // verus!
