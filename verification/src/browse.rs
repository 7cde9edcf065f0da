//! The state of browsing a document: which row of a table is selected, and
//! how the keys move the selection.

use crate::document::NachaFile;
use crate::entry::Addendum;
use crate::listing::DetailEntryWithCounter;
use vstd::prelude::*;

verus! {

/// The selection after a step down a list of `len` rows: the next row, or
/// the first one from the last row and from no selection.
pub open spec fn next_index(selected: Option<usize>, len: int) -> int {
    match selected {
        Some(i) => if i + 1 >= len {
            0
        } else {
            i + 1
        },
        None => 0,
    }
}

/// The selection after a step up a list of `len` rows: the row before, or
/// the last one from the first row.
pub open spec fn previous_index(selected: Option<usize>, len: int) -> int {
    match selected {
        Some(i) => if i == 0 {
            if len == 0 {
                0
            } else {
                len - 1
            }
        } else {
            i - 1
        },
        None => 0,
    }
}

/// The selection after a jump of `jump` rows down a list of `len` rows. A
/// jump that would pass the last row lands near the top, at the remainder
/// of `jump` by the number of rows from the selected one to the end.
pub open spec fn jump_next_index(selected: Option<usize>, len: int, jump: int) -> int {
    match selected {
        Some(i) => if i + jump >= len {
            if i < len {
                jump % (len - i)
            } else {
                0
            }
        } else {
            i + jump
        },
        None => 0,
    }
}

/// The selection after a jump of `jump` rows up a list of `len` rows. A
/// jump that would pass the first row goes on from the end of the list.
pub open spec fn jump_previous_index(selected: Option<usize>, len: int, jump: int) -> int {
    match selected {
        Some(i) => if i < jump {
            if jump - i <= len {
                len - (jump - i)
            } else {
                0
            }
        } else {
            i - jump
        },
        None => 0,
    }
}

/// The jump of a list of `len` rows: a tenth of the list, and at least one
/// row.
pub open spec fn jump_for(len: int) -> int {
    if len / 10 == 0 {
        1
    } else {
        len / 10
    }
}

/// A list of rows with a selected row and the size of a jump.
#[derive(Debug)]
pub struct StatefulTable<T> {
    pub selected: Option<usize>,
    pub items: Vec<T>,
    pub jump_size: usize,
}

impl<T> StatefulTable<T> {
    /// Whether a row of the list is selected.
    pub open spec fn selection_in_range(&self) -> bool {
        self.selected matches Some(i) && i < self.items@.len()
    }

    /// An empty list with the first row selected and a jump of one row.
    pub fn new() -> (t: StatefulTable<T>)
        ensures
            t.selected == Some(0usize),
            t.items@ == Seq::<T>::empty(),
            t.jump_size == 1,
    {
        StatefulTable { selected: Some(0), items: Vec::new(), jump_size: 1 }
    }

    /// Empties the list. The selection and the jump stay.
    pub fn clear_items(&mut self)
        ensures
            final(self).items@ == Seq::<T>::empty(),
            final(self).selected == old(self).selected,
            final(self).jump_size == old(self).jump_size,
    {
        self.items = Vec::new();
    }

    /// Whether the list has a row.
    pub fn has_items(&self) -> (b: bool)
        ensures
            b == (self.items@.len() > 0),
    {
        self.items.len() > 0
    }

    /// Replaces the rows and sets the jump to suit them. The selection
    /// stays.
    pub fn add_items(&mut self, items: Vec<T>)
        ensures
            final(self).items == items,
            final(self).jump_size == jump_for(items@.len() as int),
            final(self).selected == old(self).selected,
    {
        let mut jump_size = items.len() / 10;
        if jump_size == 0 {
            jump_size = 1;
        }
        self.items = items;
        self.jump_size = jump_size;
    }

    /// A list of the given rows with the first row selected and the jump
    /// that suits them.
    pub fn with_items(items: Vec<T>) -> (t: StatefulTable<T>)
        ensures
            t.items == items,
            t.jump_size == jump_for(items@.len() as int),
            t.selected == Some(0usize),
    {
        let mut jump_size = items.len() / 10;
        if jump_size == 0 {
            jump_size = 1;
        }
        StatefulTable { selected: Some(0), items, jump_size }
    }

    /// Moves the selection one row down.
    pub fn next(&mut self)
        ensures
            final(self).selected matches Some(i) && i == next_index(
                old(self).selected,
                old(self).items@.len() as int,
            ),
            final(self).items == old(self).items,
            final(self).jump_size == old(self).jump_size,
            old(self).items@.len() > 0 ==> final(self).selection_in_range(),
    {
        let len = self.items.len();
        let i = match self.selected {
            Some(i) => if i >= len || i + 1 >= len {
                0
            } else {
                i + 1
            },
            None => 0,
        };
        self.selected = Some(i);
    }

    /// Moves the selection one row up.
    pub fn previous(&mut self)
        ensures
            final(self).selected matches Some(i) && i == previous_index(
                old(self).selected,
                old(self).items@.len() as int,
            ),
            final(self).items == old(self).items,
            final(self).jump_size == old(self).jump_size,
            old(self).selection_in_range() ==> final(self).selection_in_range(),
    {
        let len = self.items.len();
        let i = match self.selected {
            Some(i) => if i == 0 {
                if len == 0 {
                    0
                } else {
                    len - 1
                }
            } else {
                i - 1
            },
            None => 0,
        };
        self.selected = Some(i);
    }

    /// Moves the selection a jump down.
    pub fn jump_next(&mut self)
        ensures
            final(self).selected matches Some(i) && i == jump_next_index(
                old(self).selected,
                old(self).items@.len() as int,
                old(self).jump_size as int,
            ),
            final(self).items == old(self).items,
            final(self).jump_size == old(self).jump_size,
            old(self).items@.len() > 0 ==> final(self).selection_in_range(),
    {
        let len = self.items.len();
        let jump = self.jump_size;
        let i = match self.selected {
            Some(i) => if jump >= len || i >= len - jump {
                if i < len {
                    jump % (len - i)
                } else {
                    0
                }
            } else {
                i + jump
            },
            None => 0,
        };
        self.selected = Some(i);
    }

    /// Moves the selection a jump up.
    pub fn jump_previous(&mut self)
        ensures
            final(self).selected matches Some(i) && i == jump_previous_index(
                old(self).selected,
                old(self).items@.len() as int,
                old(self).jump_size as int,
            ),
            final(self).items == old(self).items,
            final(self).jump_size == old(self).jump_size,
            old(self).selection_in_range() ==> final(self).selection_in_range(),
    {
        let len = self.items.len();
        let jump = self.jump_size;
        let i = match self.selected {
            Some(i) => if i < jump {
                if jump - i <= len {
                    len - (jump - i)
                } else {
                    0
                }
            } else {
                i - jump
            },
            None => 0,
        };
        self.selected = Some(i);
    }
}

/// What the keys can change of a table: the selection and the rows.
pub struct TableModel<T> {
    pub selected: Option<usize>,
    pub items: Seq<T>,
    pub jump_size: usize,
}

impl<T> StatefulTable<T> {
    /// The table as mathematical values.
    pub open spec fn model(&self) -> TableModel<T> {
        TableModel { selected: self.selected, items: self.items@, jump_size: self.jump_size }
    }
}

impl<T> TableModel<T> {
    /// The table with only its selection changed.
    pub open spec fn select(self, i: int) -> TableModel<T> {
        TableModel { selected: Some(i as usize), ..self }
    }

    /// The table after a step down.
    pub open spec fn next(self) -> TableModel<T> {
        self.select(next_index(self.selected, self.items.len() as int))
    }

    /// The table after a step up.
    pub open spec fn previous(self) -> TableModel<T> {
        self.select(previous_index(self.selected, self.items.len() as int))
    }

    /// The table after a jump down.
    pub open spec fn jump_next(self) -> TableModel<T> {
        self.select(jump_next_index(self.selected, self.items.len() as int, self.jump_size as int))
    }

    /// The table after a jump up.
    pub open spec fn jump_previous(self) -> TableModel<T> {
        self.select(
            jump_previous_index(self.selected, self.items.len() as int, self.jump_size as int),
        )
    }
}

/// What the keys can change of the browsing state.
pub struct AppModel {
    pub should_quit: bool,
    pub show_popup: bool,
    pub entries: TableModel<DetailEntryWithCounter>,
    pub addenda_popup: TableModel<Addendum>,
}

/// The browsing state after the key `c`:
/// `q` asks to quit; `j`, `k`, `l` and `h` step down, step up, jump down
/// and jump up in the table that has the focus, which is the addenda while
/// they are shown and the entries otherwise; `o` shows or hides the addenda
/// of the selected entry; any other key changes nothing.
pub open spec fn after_key(m: AppModel, c: char) -> AppModel {
    if c == 'q' {
        AppModel { should_quit: true, ..m }
    } else if c == 'j' {
        if m.show_popup {
            AppModel { addenda_popup: m.addenda_popup.next(), ..m }
        } else {
            AppModel { entries: m.entries.next(), ..m }
        }
    } else if c == 'k' {
        if m.show_popup {
            AppModel { addenda_popup: m.addenda_popup.previous(), ..m }
        } else {
            AppModel { entries: m.entries.previous(), ..m }
        }
    } else if c == 'h' {
        if m.show_popup {
            AppModel { addenda_popup: m.addenda_popup.jump_previous(), ..m }
        } else {
            AppModel { entries: m.entries.jump_previous(), ..m }
        }
    } else if c == 'l' {
        if m.show_popup {
            AppModel { addenda_popup: m.addenda_popup.jump_next(), ..m }
        } else {
            AppModel { entries: m.entries.jump_next(), ..m }
        }
    } else if c == 'o' {
        after_toggle(m)
    } else {
        m
    }
}

/// The browsing state after the addenda of the selected entry have been
/// asked for or sent away. An entry without addenda does not change
/// whether they are shown. Hiding empties the addenda table; showing fills
/// an empty one with the addenda of the selected entry.
pub open spec fn after_toggle(m: AppModel) -> AppModel {
    match m.entries.selected {
        Some(i) => if i < m.entries.items.len() {
            let entry = m.entries.items[i as int].entry;
            let show_popup = if entry.addenda@.len() > 0 {
                !m.show_popup
            } else {
                m.show_popup
            };
            if m.addenda_popup.items.len() > 0 && !show_popup {
                AppModel {
                    show_popup,
                    addenda_popup: TableModel { items: Seq::empty(), ..m.addenda_popup },
                    ..m
                }
            } else if m.addenda_popup.items.len() == 0 && show_popup {
                AppModel {
                    show_popup,
                    addenda_popup: TableModel {
                        items: entry.addenda@,
                        jump_size: jump_for(entry.addenda@.len() as int) as usize,
                        ..m.addenda_popup
                    },
                    ..m
                }
            } else {
                AppModel { show_popup, ..m }
            }
        } else {
            m
        },
        None => m,
    }
}

/// The state of browsing a document.
#[derive(Debug)]
pub struct App {
    pub should_quit: bool,
    pub entries: StatefulTable<DetailEntryWithCounter>,
    pub entry_count: usize,
    pub nacha_file: NachaFile,
    pub show_popup: bool,
    pub addenda_popup: StatefulTable<Addendum>,
}

impl App {
    /// What the keys can change of the state, as mathematical values.
    pub open spec fn model(&self) -> AppModel {
        AppModel {
            should_quit: self.should_quit,
            show_popup: self.show_popup,
            entries: self.entries.model(),
            addenda_popup: self.addenda_popup.model(),
        }
    }

    /// The state at the start: the first entry selected, no addenda shown.
    pub fn new(nacha_file: NachaFile, entries: Vec<DetailEntryWithCounter>) -> (app: App)
        ensures
            !app.should_quit,
            !app.show_popup,
            app.nacha_file == nacha_file,
            app.entry_count == entries@.len(),
            app.entries.items == entries,
            app.entries.selected == Some(0usize),
            app.entries.jump_size == jump_for(entries@.len() as int),
            app.addenda_popup.items@ == Seq::<Addendum>::empty(),
            app.addenda_popup.selected == Some(0usize),
            app.addenda_popup.jump_size == 1,
    {
        let count = entries.len();
        App {
            should_quit: false,
            nacha_file,
            entries: StatefulTable::with_items(entries),
            entry_count: count,
            show_popup: false,
            addenda_popup: StatefulTable::new(),
        }
    }

    /// Shows or hides the addenda of the selected entry.
    pub fn toggle_addenda(&mut self)
        ensures
            final(self).model() == after_toggle(old(self).model()),
            final(self).nacha_file == old(self).nacha_file,
            final(self).entry_count == old(self).entry_count,
    {
        match self.entries.selected {
            Some(i) => {
                if i < self.entries.items.len() {
                    if self.entries.items[i].entry.has_addenda() {
                        self.show_popup = !self.show_popup;
                    }
                    if self.addenda_popup.has_items() && !self.show_popup {
                        self.addenda_popup.clear_items();
                    } else if !self.addenda_popup.has_items() && self.show_popup {
                        let addenda = self.entries.items[i].entry.addenda.clone();
                        assert(addenda@ =~= self.entries.items[i as int].entry.addenda@);
                        self.addenda_popup.add_items(addenda);
                    }
                }
            },
            None => {},
        }
    }

    /// Takes a key.
    pub fn on_key(&mut self, c: char)
        ensures
            final(self).model() == after_key(old(self).model(), c),
            final(self).nacha_file == old(self).nacha_file,
            final(self).entry_count == old(self).entry_count,
    {
        if c == 'q' {
            self.should_quit = true;
        } else if c == 'j' {
            if self.show_popup {
                self.addenda_popup.next();
            } else {
                self.entries.next();
            }
        } else if c == 'k' {
            if self.show_popup {
                self.addenda_popup.previous();
            } else {
                self.entries.previous();
            }
        } else if c == 'h' {
            if self.show_popup {
                self.addenda_popup.jump_previous();
            } else {
                self.entries.jump_previous();
            }
        } else if c == 'l' {
            if self.show_popup {
                self.addenda_popup.jump_next();
            } else {
                self.entries.jump_next();
            }
        } else if c == 'o' {
            self.toggle_addenda();
        }
    }

    /// Takes the arrow up: a step up the entries.
    pub fn on_up(&mut self)
        ensures
            final(self).model() == (AppModel {
                entries: old(self).model().entries.previous(),
                ..old(self).model()
            }),
            final(self).nacha_file == old(self).nacha_file,
            final(self).entry_count == old(self).entry_count,
    {
        self.entries.previous();
    }

    /// Takes the arrow down: a step down the entries.
    pub fn on_down(&mut self)
        ensures
            final(self).model() == (AppModel {
                entries: old(self).model().entries.next(),
                ..old(self).model()
            }),
            final(self).nacha_file == old(self).nacha_file,
            final(self).entry_count == old(self).entry_count,
    {
        self.entries.next();
    }

    /// Takes the arrow right: a jump down the entries.
    pub fn on_right(&mut self)
        ensures
            final(self).model() == (AppModel {
                entries: old(self).model().entries.jump_next(),
                ..old(self).model()
            }),
            final(self).nacha_file == old(self).nacha_file,
            final(self).entry_count == old(self).entry_count,
    {
        self.entries.jump_next();
    }

    /// Takes the arrow left: a jump up the entries.
    pub fn on_left(&mut self)
        ensures
            final(self).model() == (AppModel {
                entries: old(self).model().entries.jump_previous(),
                ..old(self).model()
            }),
            final(self).nacha_file == old(self).nacha_file,
            final(self).entry_count == old(self).entry_count,
    {
        self.entries.jump_previous();
    }
}

} // verus!
