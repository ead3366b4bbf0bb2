//! The state of a browsing session and the two-panel selection that moves
//! through it.
//!
//! The session shows a list of table names and the rows of one table. One of
//! the two panels is active; a single index selects an item in it. The
//! session runs no query itself: `table_to_load` tells which table a
//! confirmation of the selection asks for, and `load_table` replaces the
//! table that is shown as a whole, once the caller has fetched it.

use vstd::prelude::*;
use crate::database::sqlite::{Row, TableDataWithColumns, TableInfoRow};

verus! {

/// The active panel, with the index that is selected in it.
#[derive(Debug, Clone, Copy, PartialEq, Eq, Structural)]
pub enum UserPanels {
    /// The list of table names.
    Tables(usize),
    /// The rows of the current table.
    Rows(usize),
}

impl UserPanels {
    /// The selected index.
    pub open spec fn spec_index(self) -> usize {
        match self {
            UserPanels::Tables(i) => i,
            UserPanels::Rows(i) => i,
        }
    }

    /// The same panel with another index selected.
    pub open spec fn with_index(self, index: usize) -> UserPanels {
        match self {
            UserPanels::Tables(_) => UserPanels::Tables(index),
            UserPanels::Rows(_) => UserPanels::Rows(index),
        }
    }

    /// The other panel with the same index selected.
    pub open spec fn other(self) -> UserPanels {
        match self {
            UserPanels::Tables(i) => UserPanels::Rows(i),
            UserPanels::Rows(i) => UserPanels::Tables(i),
        }
    }

    /// The selected index.
    #[verifier::when_used_as_spec(spec_index)]
    pub fn index(self) -> (r: usize)
        ensures
            r == self.spec_index(),
    {
        match self {
            UserPanels::Tables(i) => i,
            UserPanels::Rows(i) => i,
        }
    }
}

impl Default for UserPanels {
    fn default() -> (r: Self)
        ensures
            r == UserPanels::Tables(0),
    {
        UserPanels::Tables(0)
    }
}

/// The index after a step forward among `count` items: the next one, and the
/// first after the last. An index beyond the last item steps to the first.
/// Without items the index stays.
pub open spec fn next_index(index: nat, count: nat) -> nat {
    if count == 0 {
        index
    } else if index + 1 >= count {
        0
    } else {
        index + 1
    }
}

/// The index after a step backward among `count` items: the one before, and
/// the last before the first. Without items the index stays.
pub open spec fn prev_index(index: nat, count: nat) -> nat {
    if count == 0 {
        index
    } else if index == 0 {
        (count - 1) as nat
    } else {
        (index - 1) as nat
    }
}

/// The index after `steps` steps forward among `count` items.
pub open spec fn next_index_times(index: nat, count: nat, steps: nat) -> nat
    decreases steps,
{
    if steps == 0 {
        index
    } else {
        next_index(next_index_times(index, count, (steps - 1) as nat), count)
    }
}

/// A command of the session's user.
#[derive(Debug, Clone, Copy, PartialEq, Eq, Structural)]
pub enum Command {
    Next,
    Prev,
    SwitchPanel,
    Quit,
}

/// The state of a browsing session.
pub struct State {
    pub db_url: String,
    pub tables: Vec<String>,
    pub current_table: String,
    pub last_results: Vec<Row>,
    pub current_columns: Vec<TableInfoRow>,
    /// The cursor of the row panel.
    pub table_state: usize,
    /// The cursor of the table list.
    pub list_state: usize,
    pub panel: UserPanels,
}

impl State {
    /// Both cursors stand at the selected index.
    pub open spec fn wf(self) -> bool {
        self.list_state == self.panel.index() && self.table_state == self.panel.index()
    }

    /// The number of items in the active panel: the table names for the
    /// list, the rows of the current table for the row panel.
    pub open spec fn active_len(self) -> nat {
        match self.panel {
            UserPanels::Tables(_) => self.tables.len() as nat,
            UserPanels::Rows(_) => self.last_results.len() as nat,
        }
    }

    /// The state with `index` selected: in the active panel and in both
    /// cursors.
    pub open spec fn selecting(self, index: usize) -> State {
        State {
            table_state: index,
            list_state: index,
            panel: self.panel.with_index(index),
            ..self
        }
    }

    /// The state after a step forward. Without items in the active panel it
    /// is the same state.
    pub open spec fn after_next(self) -> State {
        if self.active_len() == 0 {
            self
        } else {
            self.selecting(next_index(self.panel.index() as nat, self.active_len()) as usize)
        }
    }

    /// The state after a step backward. Without items in the active panel it
    /// is the same state.
    pub open spec fn after_prev(self) -> State {
        if self.active_len() == 0 {
            self
        } else {
            self.selecting(prev_index(self.panel.index() as nat, self.active_len()) as usize)
        }
    }

    /// The state after a change of panel: the other panel is active, and the
    /// index is the same number, whatever the other panel holds.
    pub open spec fn after_switch(self) -> State {
        State { panel: self.panel.other(), ..self }
    }

    /// The state after a command.
    pub open spec fn after(self, command: Command) -> State {
        match command {
            Command::Next => self.after_next(),
            Command::Prev => self.after_prev(),
            Command::SwitchPanel => self.after_switch(),
            Command::Quit => self,
        }
    }

    /// The state after `steps` steps forward.
    pub open spec fn after_next_times(self, steps: nat) -> State
        decreases steps,
    {
        if steps == 0 {
            self
        } else {
            self.after_next_times((steps - 1) as nat).after_next()
        }
    }

    /// A session on the given tables, showing the given table, with the
    /// table list active and its first item selected.
    pub fn new(
        db_url: String,
        tables: Vec<String>,
        current_table: String,
        table: TableDataWithColumns,
    ) -> (r: State)
        ensures
            r.db_url == db_url,
            r.tables == tables,
            r.current_table == current_table,
            r.last_results == table.data,
            r.current_columns == table.columns,
            r.panel == UserPanels::Tables(0),
            r.wf(),
    {
        State {
            db_url,
            tables,
            current_table,
            last_results: table.data,
            current_columns: table.columns,
            table_state: 0,
            list_state: 0,
            panel: UserPanels::Tables(0),
        }
    }

    /// Shows another table: its name, columns and rows replace those of the
    /// table shown before, all at once. The selection is left as it is.
    pub fn load_table(&mut self, name: String, table: TableDataWithColumns)
        ensures
            *final(self) == (State {
                current_table: name,
                last_results: table.data,
                current_columns: table.columns,
                ..*old(self)
            }),
    {
        self.current_table = name;
        self.last_results = table.data;
        self.current_columns = table.columns;
    }

    /// The number of items in the active panel.
    pub fn active_count(&self) -> (r: usize)
        ensures
            r == self.active_len(),
    {
        match self.panel {
            UserPanels::Tables(_) => self.tables.len(),
            UserPanels::Rows(_) => self.last_results.len(),
        }
    }

    /// The name that is selected in the table list, if the index selects one.
    pub fn selected_table(&self) -> (r: Option<&String>)
        ensures
            match r {
                Some(name) => self.panel.index() < self.tables@.len() && *name
                    == self.tables@[self.panel.index() as int],
                None => self.panel.index() >= self.tables@.len(),
            },
    {
        let i = self.panel.index();
        if i < self.tables.len() {
            Some(&self.tables[i])
        } else {
            None
        }
    }

    /// The table that a confirmation of the selection asks for: the name
    /// that is selected in the table list, while the list is the active
    /// panel. In the row panel a confirmation asks for nothing.
    pub fn table_to_load(&self) -> (r: Option<&String>)
        ensures
            match r {
                Some(name) => self.panel is Tables && self.panel.index() < self.tables@.len()
                    && *name == self.tables@[self.panel.index() as int],
                None => self.panel is Rows || self.panel.index() >= self.tables@.len(),
            },
    {
        match self.panel {
            UserPanels::Tables(_) => self.selected_table(),
            UserPanels::Rows(_) => None,
        }
    }

    fn select(&mut self, index: usize)
        ensures
            *final(self) == old(self).selecting(index),
    {
        self.table_state = index;
        self.list_state = index;
        let panel = match self.panel {
            UserPanels::Tables(_) => UserPanels::Tables(index),
            UserPanels::Rows(_) => UserPanels::Rows(index),
        };
        self.panel = panel;
    }

    /// Makes the other panel the active one. The index is not reset.
    pub fn switch_panel(&mut self)
        ensures
            *final(self) == old(self).after_switch(),
            final(self).panel.index() == old(self).panel.index(),
            old(self).wf() ==> final(self).wf(),
    {
        let panel = match self.panel {
            UserPanels::Tables(i) => UserPanels::Rows(i),
            UserPanels::Rows(i) => UserPanels::Tables(i),
        };
        self.panel = panel;
    }

    /// Steps forward in the active panel, from the last item to the first.
    /// Without items nothing changes.
    pub fn next(&mut self)
        ensures
            *final(self) == old(self).after_next(),
            old(self).active_len() == 0 ==> *final(self) == *old(self),
            old(self).active_len() > 0 ==> final(self).wf() && final(self).panel.index()
                < old(self).active_len(),
    {
        let count = self.active_count();
        if count == 0 {
            return;
        }
        let index = self.panel.index();
        let next = if index >= count - 1 {
            0
        } else {
            index + 1
        };
        self.select(next);
    }

    /// Steps backward in the active panel, from the first item to the last.
    /// Without items nothing changes.
    pub fn prev(&mut self)
        ensures
            *final(self) == old(self).after_prev(),
            old(self).active_len() == 0 ==> *final(self) == *old(self),
            old(self).active_len() > 0 ==> final(self).wf(),
    {
        let count = self.active_count();
        if count == 0 {
            return;
        }
        let index = self.panel.index();
        let prev = if index == 0 {
            count - 1
        } else {
            index - 1
        };
        self.select(prev);
    }

    /// Carries out a command and tells whether the session goes on: it ends
    /// with `Quit` and with nothing else.
    pub fn apply(&mut self, command: Command) -> (running: bool)
        ensures
            *final(self) == old(self).after(command),
            running == (command != Command::Quit),
    {
        match command {
            Command::Next => {
                self.next();
                true
            },
            Command::Prev => {
                self.prev();
                true
            },
            Command::SwitchPanel => {
                self.switch_panel();
                true
            },
            Command::Quit => false,
        }
    }
}

impl Default for State {
    /// A session without connection string and without tables, with the
    /// table list active and index 0.
    fn default() -> (r: Self)
        ensures
            r.db_url@.len() == 0,
            r.current_table@.len() == 0,
            r.tables@.len() == 0,
            r.last_results@.len() == 0,
            r.current_columns@.len() == 0,
            r.panel == UserPanels::Tables(0),
            r.wf(),
    {
        State {
            db_url: String::new(),
            tables: Vec::new(),
            current_table: String::new(),
            last_results: Vec::new(),
            current_columns: Vec::new(),
            table_state: 0,
            list_state: 0,
            panel: UserPanels::Tables(0),
        }
    }
}

/// Among the items of a panel a step forward is the successor modulo the
/// number of items, and a step backward the predecessor.
pub proof fn lemma_steps_are_modular(index: nat, count: nat)
    requires
        index < count,
    ensures
        next_index(index, count) == (index as int + 1) % (count as int),
        prev_index(index, count) == (index as int + count as int - 1) % (count as int),
        next_index(index, count) < count,
        prev_index(index, count) < count,
{
    let i = index as int;
    let n = count as int;
    if i + 1 < n {
        vstd::arithmetic::div_mod::lemma_small_mod((i + 1) as nat, count);
    } else {
        vstd::arithmetic::div_mod::lemma_mod_self_0(n);
    }
    if i == 0 {
        vstd::arithmetic::div_mod::lemma_small_mod((n - 1) as nat, count);
    } else {
        vstd::arithmetic::div_mod::lemma_mod_add_multiples_vanish(i - 1, n);
        vstd::arithmetic::div_mod::lemma_small_mod((i - 1) as nat, count);
    }
}

/// From an index that selects an item, a step forward and then a step
/// backward lead back to it, and so do a step backward and then a step
/// forward.
pub proof fn lemma_next_prev_index(index: nat, count: nat)
    requires
        index < count,
    ensures
        prev_index(next_index(index, count), count) == index,
        next_index(prev_index(index, count), count) == index,
{
}

/// From a state whose index selects an item of the active panel, `next` and
/// then `prev` lead back to the same state, and so do `prev` and then `next`.
pub proof fn lemma_next_prev(s: State)
    requires
        s.wf(),
        s.panel.index() < s.active_len(),
    ensures
        s.after_next().after_prev() == s,
        s.after_prev().after_next() == s,
{
    lemma_next_prev_index(s.panel.index() as nat, s.active_len());
}

/// From the first of `count` items, `steps` steps forward lead to the item
/// `steps`, and `count` steps lead back to the first.
pub proof fn lemma_next_index_cycle(count: nat, steps: nat)
    requires
        steps <= count,
        count > 0,
    ensures
        next_index_times(0, count, steps) == if steps == count {
            0
        } else {
            steps
        },
    decreases steps,
{
    if steps > 0 {
        lemma_next_index_cycle(count, (steps - 1) as nat);
    }
}

/// Steps forward leave the active panel and its items as they are, and move
/// the index as `next_index_times` says.
pub proof fn lemma_next_times_index(s: State, steps: nat)
    requires
        s.panel.index() < s.active_len(),
    ensures
        s.after_next_times(steps).active_len() == s.active_len(),
        s.after_next_times(steps).panel.index() == next_index_times(
            s.panel.index() as nat,
            s.active_len(),
            steps,
        ),
        s.after_next_times(steps).panel.index() < s.active_len(),
    decreases steps,
{
    if steps > 0 {
        lemma_next_times_index(s, (steps - 1) as nat);
    }
}

/// With the first of `n` items selected, `n` times `next` lead back to the
/// first item.
pub proof fn lemma_next_wraps_around(s: State)
    requires
        s.active_len() > 0,
        s.panel.index() == 0,
    ensures
        s.after_next_times(s.active_len()).panel.index() == 0,
        s.wf() ==> s.after_next_times(s.active_len()) == s,
{
    let n = s.active_len();
    lemma_next_times_index(s, n);
    lemma_next_index_cycle(n, n);
    if s.wf() {
        lemma_next_times_keeps_rest(s, n);
    }
}

/// Steps forward change nothing but the selection.
pub proof fn lemma_next_times_keeps_rest(s: State, steps: nat)
    requires
        s.wf(),
    ensures
        s.after_next_times(steps).wf(),
        s.after_next_times(steps) == s.selecting(s.after_next_times(steps).panel.index()),
    decreases steps,
{
    if steps > 0 {
        lemma_next_times_keeps_rest(s, (steps - 1) as nat);
    }
}

/// Two changes of panel lead back to the same state: the panel that was
/// active is active again, and the index is what it was.
pub proof fn lemma_switch_twice(s: State)
    ensures
        s.after_switch().after_switch() == s,
        s.after_switch().panel.index() == s.panel.index(),
        s.after_switch().panel != s.panel,
{
}

} // verus!
