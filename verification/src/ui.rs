//! XMB-style cross menu: columns of items with fixed capacities, and the
//! navigation rules between them. Drawing and animation timing live with the
//! renderer; the menu says which column transition to animate.

use vstd::prelude::*;
use vstd::string::StringSliceAdditionalSpecFns;
use crate::error::K1Error;
use crate::sys::{put_c_text, write_c_text};

verus! {

/// Most columns a menu holds.
pub const MAX_COLUMNS: usize = 8;
/// Most items a column holds.
pub const MAX_ITEMS: usize = 32;

/// UI renderer context: room for a fixed number of quads.
pub struct UIRenderer {
    max_quads: usize,
}

/// Whether `it` is an empty item: id 0, icon 0, label and path all zero
/// bytes.
pub open spec fn is_blank_item(it: XMBItem) -> bool {
    &&& it.id == 0
    &&& it.icon_id == 0
    &&& it.label@ == Seq::new(48, |i: int| 0u8)
    &&& it.app_path@ == Seq::new(128, |i: int| 0u8)
}

/// Whether `c` is an empty column: id 0, icon 0, an all-zero label, no items
/// in use and every item slot empty.
pub open spec fn is_blank_column(c: XMBColumn) -> bool {
    &&& c.id == 0
    &&& c.icon_id == 0
    &&& c.item_count == 0
    &&& c.label@ == Seq::new(32, |i: int| 0u8)
    &&& forall|j: int| 0 <= j < MAX_ITEMS ==> is_blank_item(#[trigger] c.items[j])
}

/// One entry of a column: a label, an icon and the path of what it starts.
#[derive(Clone, Copy)]
pub struct XMBItem {
    pub id: u32,
    /// NUL-terminated UTF-8 label.
    pub label: [u8; 48],
    /// Icon atlas index.
    pub icon_id: u16,
    /// NUL-terminated path of the emulator or game to start.
    pub app_path: [u8; 128],
}

impl XMBItem {
    /// An item with id 0, icon 0 and empty label and path.
    pub fn new() -> (it: Self)
        ensures
            is_blank_item(it),
    {
        let it = XMBItem { id: 0, label: [0u8; 48], icon_id: 0, app_path: [0u8; 128] };
        assert(it.label@ =~= Seq::new(48, |i: int| 0u8));
        assert(it.app_path@ =~= Seq::new(128, |i: int| 0u8));
        it
    }

    /// Stores as much of `text` as fits (47 bytes) as the label, NUL-terminated.
    pub fn set_label(&mut self, text: &str)
        ensures
            final(self).label@ == put_c_text(old(self).label@, text.spec_bytes()),
            final(self).app_path == old(self).app_path,
            final(self).id == old(self).id,
            final(self).icon_id == old(self).icon_id,
    {
        write_c_text(&mut self.label, text);
    }

    /// Stores as much of `path` as fits (127 bytes) as the app path,
    /// NUL-terminated.
    pub fn set_app_path(&mut self, path: &str)
        ensures
            final(self).app_path@ == put_c_text(old(self).app_path@, path.spec_bytes()),
            final(self).label == old(self).label,
            final(self).id == old(self).id,
            final(self).icon_id == old(self).icon_id,
    {
        write_c_text(&mut self.app_path, path);
    }
}

/// One column of the menu: a label, an icon and up to [`MAX_ITEMS`] items,
/// of which the first `item_count` are in use.
#[derive(Clone, Copy)]
pub struct XMBColumn {
    pub id: u32,
    /// NUL-terminated UTF-8 label.
    pub label: [u8; 32],
    /// Icon atlas index.
    pub icon_id: u16,
    pub items: [XMBItem; 32],
    pub item_count: usize,
}

impl XMBColumn {
    /// An empty column with id 0, icon 0 and an empty label.
    pub fn new() -> (c: Self)
        ensures
            is_blank_column(c),
    {
        let it = XMBItem::new();
        let c = XMBColumn { id: 0, label: [0u8; 32], icon_id: 0, items: [it; 32], item_count: 0 };
        assert(c.label@ =~= Seq::new(32, |i: int| 0u8));
        assert forall|j: int| 0 <= j < MAX_ITEMS implies is_blank_item(#[trigger] c.items[j]) by {
            assert(c.items[j] == it);
        }
        c
    }

    /// Stores as much of `text` as fits (31 bytes) as the label, NUL-terminated.
    pub fn set_label(&mut self, text: &str)
        ensures
            final(self).label@ == put_c_text(old(self).label@, text.spec_bytes()),
            final(self).items == old(self).items,
            final(self).item_count == old(self).item_count,
            final(self).id == old(self).id,
            final(self).icon_id == old(self).icon_id,
    {
        write_c_text(&mut self.label, text);
    }

    /// Appends an item with the given label, icon and app path; `OutOfBounds`,
    /// with nothing changed, when the column already holds [`MAX_ITEMS`] items.
    pub fn add_item(&mut self, label: &str, icon_id: u16, app_path: &str) -> (r: Result<(), K1Error>)
        ensures
            old(self).item_count >= MAX_ITEMS ==> r == Err::<(), K1Error>(K1Error::OutOfBounds)
                && *final(self) == *old(self),
            old(self).item_count < MAX_ITEMS ==> {
                let k = old(self).item_count as int;
                let it = final(self).items[k];
                &&& r is Ok
                &&& final(self).item_count == old(self).item_count + 1
                &&& it.label@ == put_c_text(old(self).items[k].label@, label.spec_bytes())
                &&& it.app_path@ == put_c_text(old(self).items[k].app_path@, app_path.spec_bytes())
                &&& it.icon_id == icon_id
                &&& it.id == old(self).items[k].id
                &&& forall|j: int| 0 <= j < MAX_ITEMS && j != k ==> final(self).items[j] == old(self).items[j]
                &&& final(self).label == old(self).label
                &&& final(self).id == old(self).id
                &&& final(self).icon_id == old(self).icon_id
            },
    {
        if self.item_count >= MAX_ITEMS {
            return Err(K1Error::OutOfBounds);
        }
        let k = self.item_count;
        self.items[k].set_label(label);
        self.items[k].icon_id = icon_id;
        self.items[k].set_app_path(app_path);
        self.item_count = k + 1;
        Ok(())
    }
}

/// A key that the menu reacts to, decoded from the platform's key codes.
#[derive(Debug, Clone, Copy, PartialEq, Eq, Structural)]
pub enum MenuKey {
    Right,
    Left,
    Down,
    Up,
    Confirm,
    Back,
    Other,
}

/// What a key press on the menu asks of its owner.
#[derive(Debug, Clone, Copy, PartialEq, Eq, Structural)]
pub enum MenuEvent {
    /// Nothing to do.
    Idle,
    /// The selection moved from column `from` to column `to`: animate it.
    ColumnTransition { from: usize, to: usize },
    /// The selected item was confirmed.
    Confirmed,
    /// Back was pressed.
    BackPressed,
}

/// Number of items of column `c` that are drawn: those in use, at most
/// [`MAX_ITEMS`].
pub open spec fn shown_items(c: XMBColumn) -> int {
    if c.item_count < MAX_ITEMS {
        c.item_count as int
    } else {
        MAX_ITEMS as int
    }
}

/// Quads drawn for the first `i` columns: a header and the shown items of
/// each.
pub open spec fn quads_before(cols: Seq<XMBColumn>, i: int) -> int
    decreases i,
{
    if i <= 0 {
        0
    } else {
        quads_before(cols, i - 1) + 1 + shown_items(cols[i - 1])
    }
}

/// More columns never draw fewer quads.
proof fn lemma_quads_before_monotone(cols: Seq<XMBColumn>, n: int)
    ensures
        forall|j: int| 0 <= j <= n ==> 0 <= #[trigger] quads_before(cols, j) <= quads_before(cols, n),
    decreases n,
{
    if n > 0 {
        lemma_quads_before_monotone(cols, n - 1);
        assert(0 <= quads_before(cols, n - 1));
        assert(quads_before(cols, n) == quads_before(cols, n - 1) + 1 + shown_items(cols[n - 1]));
    }
}

/// One quad of the menu's drawing: a column header (`row` is `None`) or an
/// item, the index of its first vertex, and whether its column and its row
/// are the selected ones.
#[derive(Debug, Clone, Copy, PartialEq, Eq, Structural)]
pub struct MenuQuad {
    pub column: usize,
    pub row: Option<usize>,
    pub first_vertex: usize,
    pub column_selected: bool,
    pub row_selected: bool,
}

/// The menu: up to [`MAX_COLUMNS`] columns and the selected column and row.
pub struct XMBMenu {
    columns: [XMBColumn; 8],
    column_count: usize,
    selected_column: usize,
    selected_row: usize,
}

impl XMBMenu {
    /// Well-formedness: at most [`MAX_COLUMNS`] columns, the selected column
    /// is one of them (or 0 while there is none).
    pub closed spec fn wf(&self) -> bool {
        &&& self.column_count <= MAX_COLUMNS
        &&& (self.selected_column < self.column_count || self.selected_column == 0)
        &&& self.selected_row < usize::MAX
    }

    /// All column storage, in use or not.
    pub closed spec fn spec_columns(&self) -> Seq<XMBColumn> {
        self.columns@
    }

    /// Number of columns in use.
    pub closed spec fn spec_column_count(&self) -> usize {
        self.column_count
    }

    /// Index of the selected column.
    pub closed spec fn spec_selected_column(&self) -> usize {
        self.selected_column
    }

    /// Index of the selected row in the selected column.
    pub closed spec fn spec_selected_row(&self) -> usize {
        self.selected_row
    }

    /// Number of items of the selected column.
    pub open spec fn selected_item_count(&self) -> usize {
        self.spec_columns()[self.spec_selected_column() as int].item_count
    }

    /// What [`XMBMenu::navigate_right`] does: with a column to the right of
    /// the selected one, select it on its first row and report the
    /// transition; otherwise change nothing. Columns never change.
    pub open spec fn right_step(before: Self, after: Self, t: Option<(usize, usize)>) -> bool {
        &&& after.wf()
        &&& after.spec_columns() == before.spec_columns()
        &&& after.spec_column_count() == before.spec_column_count()
        &&& before.spec_selected_column() + 1 < before.spec_column_count() ==> {
            &&& t == Some((before.spec_selected_column(), (before.spec_selected_column() + 1) as usize))
            &&& after.spec_selected_column() == before.spec_selected_column() + 1
            &&& after.spec_selected_row() == 0
        }
        &&& !(before.spec_selected_column() + 1 < before.spec_column_count()) ==> {
            &&& t is None
            &&& after.spec_selected_column() == before.spec_selected_column()
            &&& after.spec_selected_row() == before.spec_selected_row()
        }
    }

    /// What [`XMBMenu::navigate_left`] does: with a column to the left of the
    /// selected one, select it on its first row and report the transition;
    /// otherwise change nothing. Columns never change.
    pub open spec fn left_step(before: Self, after: Self, t: Option<(usize, usize)>) -> bool {
        &&& after.wf()
        &&& after.spec_columns() == before.spec_columns()
        &&& after.spec_column_count() == before.spec_column_count()
        &&& before.spec_selected_column() > 0 ==> {
            &&& t == Some((before.spec_selected_column(), (before.spec_selected_column() - 1) as usize))
            &&& after.spec_selected_column() == before.spec_selected_column() - 1
            &&& after.spec_selected_row() == 0
        }
        &&& before.spec_selected_column() == 0 ==> {
            &&& t is None
            &&& after.spec_selected_column() == before.spec_selected_column()
            &&& after.spec_selected_row() == before.spec_selected_row()
        }
    }

    /// An empty menu with the first column and row selected.
    pub fn new() -> (m: Self)
        ensures
            m.wf(),
            m.spec_column_count() == 0,
            m.spec_selected_column() == 0,
            m.spec_selected_row() == 0,
            m.spec_columns().len() == MAX_COLUMNS,
            forall|i: int| 0 <= i < MAX_COLUMNS ==> is_blank_column(#[trigger] m.spec_columns()[i]),
    {
        let c = XMBColumn::new();
        let m = XMBMenu { columns: [c; 8], column_count: 0, selected_column: 0, selected_row: 0 };
        assert forall|i: int| 0 <= i < MAX_COLUMNS implies is_blank_column(#[trigger] m.spec_columns()[i]) by {
            assert(m.spec_columns()[i] == c);
        }
        m
    }

    /// Adds a column with the given label and icon and hands it out for its
    /// items to be added; `OutOfBounds`, with nothing changed, when the menu
    /// already holds [`MAX_COLUMNS`] columns.
    pub fn add_column(&mut self, label: &str, icon_id: u16) -> (r: Result<&mut XMBColumn, K1Error>)
        requires
            old(self).wf(),
        ensures
            final(self).wf(),
            final(self).spec_selected_column() == old(self).spec_selected_column(),
            final(self).spec_selected_row() == old(self).spec_selected_row(),
            old(self).spec_column_count() >= MAX_COLUMNS ==> {
                &&& (r matches Err(e) && e == K1Error::OutOfBounds)
                &&& final(self).spec_columns() == old(self).spec_columns()
                &&& final(self).spec_column_count() == old(self).spec_column_count()
            },
            old(self).spec_column_count() < MAX_COLUMNS ==> {
                let k = old(self).spec_column_count() as int;
                let c0 = old(self).spec_columns()[k];
                &&& r is Ok
                &&& final(self).spec_column_count() == k + 1
                &&& r->Ok_0.label@ == put_c_text(c0.label@, label.spec_bytes())
                &&& r->Ok_0.icon_id == icon_id
                &&& r->Ok_0.items == c0.items
                &&& r->Ok_0.item_count == c0.item_count
                &&& r->Ok_0.id == c0.id
                &&& final(self).spec_columns() == old(self).spec_columns().update(k, *final(r->Ok_0))
            },
    {
        if self.column_count >= MAX_COLUMNS {
            return Err(K1Error::OutOfBounds);
        }
        let k = self.column_count;
        self.column_count = k + 1;
        let col = &mut self.columns[k];
        col.set_label(label);
        col.icon_id = icon_id;
        Ok(col)
    }

    /// Moves the selection one column right, to that column's first row, when
    /// there is a column to the right; returns the transition to animate.
    pub fn navigate_right(&mut self) -> (t: Option<(usize, usize)>)
        requires
            old(self).wf(),
        ensures
            Self::right_step(*old(self), *final(self), t),
    {
        if self.selected_column + 1 < self.column_count {
            let from = self.selected_column;
            self.selected_column = from + 1;
            self.selected_row = 0;
            Some((from, from + 1))
        } else {
            None
        }
    }

    /// Moves the selection one column left, to that column's first row, when
    /// there is a column to the left; returns the transition to animate.
    pub fn navigate_left(&mut self) -> (t: Option<(usize, usize)>)
        requires
            old(self).wf(),
        ensures
            Self::left_step(*old(self), *final(self), t),
    {
        if self.selected_column > 0 {
            let from = self.selected_column;
            self.selected_column = from - 1;
            self.selected_row = 0;
            Some((from, from - 1))
        } else {
            None
        }
    }

    /// Moves the selection one row down when the selected column has a row
    /// below it.
    pub fn navigate_down(&mut self)
        requires
            old(self).wf(),
        ensures
            final(self).wf(),
            final(self).spec_columns() == old(self).spec_columns(),
            final(self).spec_column_count() == old(self).spec_column_count(),
            final(self).spec_selected_column() == old(self).spec_selected_column(),
            final(self).spec_selected_row() == if old(self).spec_selected_row() + 1
                < old(self).selected_item_count() {
                old(self).spec_selected_row() + 1
            } else {
                old(self).spec_selected_row() as int
            },
    {
        let count = self.columns[self.selected_column].item_count;
        if self.selected_row + 1 < count {
            self.selected_row += 1;
        }
    }

    /// Moves the selection one row up when it is not on the first row.
    pub fn navigate_up(&mut self)
        requires
            old(self).wf(),
        ensures
            final(self).wf(),
            final(self).spec_columns() == old(self).spec_columns(),
            final(self).spec_column_count() == old(self).spec_column_count(),
            final(self).spec_selected_column() == old(self).spec_selected_column(),
            final(self).spec_selected_row() == if old(self).spec_selected_row() > 0 {
                old(self).spec_selected_row() - 1
            } else {
                0
            },
    {
        if self.selected_row > 0 {
            self.selected_row -= 1;
        }
    }

    /// Reacts to a key: only presses count; the arrow keys navigate, confirm
    /// and back are reported, other keys do nothing.
    pub fn handle_key(&mut self, key: MenuKey, pressed: bool) -> (e: MenuEvent)
        requires
            old(self).wf(),
        ensures
            final(self).wf(),
            final(self).spec_columns() == old(self).spec_columns(),
            final(self).spec_column_count() == old(self).spec_column_count(),
            !pressed || key == MenuKey::Confirm || key == MenuKey::Back || key == MenuKey::Other ==> {
                &&& final(self).spec_selected_column() == old(self).spec_selected_column()
                &&& final(self).spec_selected_row() == old(self).spec_selected_row()
            },
            !pressed ==> e == MenuEvent::Idle,
            pressed && key == MenuKey::Confirm ==> e == MenuEvent::Confirmed,
            pressed && key == MenuKey::Back ==> e == MenuEvent::BackPressed,
            pressed && key == MenuKey::Other ==> e == MenuEvent::Idle,
            pressed && (key == MenuKey::Up || key == MenuKey::Down) ==> e == MenuEvent::Idle
                && final(self).spec_selected_column() == old(self).spec_selected_column(),
            pressed && key == MenuKey::Up ==> final(self).spec_selected_row() == if old(self).spec_selected_row() > 0 {
                old(self).spec_selected_row() - 1
            } else {
                0
            },
            pressed && key == MenuKey::Down ==> final(self).spec_selected_row() == if old(self).spec_selected_row() + 1
                < old(self).selected_item_count() {
                old(self).spec_selected_row() + 1
            } else {
                old(self).spec_selected_row() as int
            },
            pressed && key == MenuKey::Right ==> {
                if old(self).spec_selected_column() + 1 < old(self).spec_column_count() {
                    &&& e == MenuEvent::ColumnTransition {
                        from: old(self).spec_selected_column(),
                        to: (old(self).spec_selected_column() + 1) as usize,
                    }
                    &&& final(self).spec_selected_column() == old(self).spec_selected_column() + 1
                    &&& final(self).spec_selected_row() == 0
                } else {
                    &&& e == MenuEvent::Idle
                    &&& final(self).spec_selected_column() == old(self).spec_selected_column()
                    &&& final(self).spec_selected_row() == old(self).spec_selected_row()
                }
            },
            pressed && key == MenuKey::Left ==> {
                if old(self).spec_selected_column() > 0 {
                    &&& e == MenuEvent::ColumnTransition {
                        from: old(self).spec_selected_column(),
                        to: (old(self).spec_selected_column() - 1) as usize,
                    }
                    &&& final(self).spec_selected_column() == old(self).spec_selected_column() - 1
                    &&& final(self).spec_selected_row() == 0
                } else {
                    &&& e == MenuEvent::Idle
                    &&& final(self).spec_selected_column() == old(self).spec_selected_column()
                    &&& final(self).spec_selected_row() == old(self).spec_selected_row()
                }
            },
    {
        if !pressed {
            return MenuEvent::Idle;
        }
        match key {
            MenuKey::Right => match self.navigate_right() {
                Some((from, to)) => MenuEvent::ColumnTransition { from, to },
                None => MenuEvent::Idle,
            },
            MenuKey::Left => match self.navigate_left() {
                Some((from, to)) => MenuEvent::ColumnTransition { from, to },
                None => MenuEvent::Idle,
            },
            MenuKey::Down => {
                self.navigate_down();
                MenuEvent::Idle
            },
            MenuKey::Up => {
                self.navigate_up();
                MenuEvent::Idle
            },
            MenuKey::Confirm => MenuEvent::Confirmed,
            MenuKey::Back => MenuEvent::BackPressed,
            MenuKey::Other => MenuEvent::Idle,
        }
    }

    /// Number of columns in use.
    pub fn column_count(&self) -> (n: usize)
        ensures
            n == self.spec_column_count(),
    {
        self.column_count
    }

    /// Index of the selected column.
    pub fn selected_column(&self) -> (n: usize)
        ensures
            n == self.spec_selected_column(),
    {
        self.selected_column
    }

    /// Index of the selected row.
    pub fn selected_row(&self) -> (n: usize)
        ensures
            n == self.spec_selected_row(),
    {
        self.selected_row
    }

    /// The quads of the menu's drawing, in drawing order, for vertices
    /// counted from `base`, and the number of vertices they take: for each
    /// column in use, its header and then each of its items (at most
    /// [`MAX_ITEMS`]), six vertices each. Each column's quads are laid out at
    /// twice the column's running vertex count past `base`, as the menu's
    /// renderer places them.
    pub fn quad_layout(&self, base: usize) -> (r: (Vec<MenuQuad>, usize))
        requires
            self.wf(),
            base + 12 * quads_before(self.spec_columns(), self.spec_column_count() as int) <= usize::MAX,
        ensures
            ({
                let cols = self.spec_columns();
                let n = self.spec_column_count() as int;
                &&& r.1 == 6 * quads_before(cols, n)
                &&& r.0@.len() == quads_before(cols, n)
                &&& forall|i: int|
                    0 <= i < n ==> #[trigger] r.0@[quads_before(cols, i)] == (MenuQuad {
                        column: i as usize,
                        row: None,
                        first_vertex: (base + 12 * quads_before(cols, i)) as usize,
                        column_selected: i == self.spec_selected_column(),
                        row_selected: false,
                    })
                &&& forall|i: int, k: int|
                    0 <= i < n && 0 <= k < shown_items(cols[i]) ==> #[trigger] r.0@[quads_before(cols, i) + 1 + k]
                        == (MenuQuad {
                        column: i as usize,
                        row: Some(k as usize),
                        first_vertex: (base + 12 * quads_before(cols, i) + 6 * (1 + k)) as usize,
                        column_selected: i == self.spec_selected_column(),
                        row_selected: k == self.spec_selected_row(),
                    })
            }),
    {
        let ghost cols = self.spec_columns();
        let n = self.column_count;
        proof {
            lemma_quads_before_monotone(cols, n as int);
        }
        let mut quads: Vec<MenuQuad> = Vec::new();
        let mut count: usize = 0;
        let mut i: usize = 0;
        while i < n
            invariant
                self.wf(),
                cols == self.spec_columns(),
                n == self.spec_column_count(),
                i <= n,
                base + 12 * quads_before(cols, n as int) <= usize::MAX,
                forall|j: int| 0 <= j <= n ==> quads_before(cols, j) <= quads_before(cols, n as int),
                count == 6 * quads_before(cols, i as int),
                quads@.len() == quads_before(cols, i as int),
                forall|j: int|
                    0 <= j < i ==> #[trigger] quads@[quads_before(cols, j)] == (MenuQuad {
                        column: j as usize,
                        row: None,
                        first_vertex: (base + 12 * quads_before(cols, j)) as usize,
                        column_selected: j == self.spec_selected_column(),
                        row_selected: false,
                    }),
                forall|j: int, k: int|
                    0 <= j < i && 0 <= k < shown_items(cols[j]) ==> #[trigger] quads@[quads_before(cols, j) + 1 + k]
                        == (MenuQuad {
                        column: j as usize,
                        row: Some(k as usize),
                        first_vertex: (base + 12 * quads_before(cols, j) + 6 * (1 + k)) as usize,
                        column_selected: j == self.spec_selected_column(),
                        row_selected: k == self.spec_selected_row(),
                    }),
            decreases n - i,
        {
            let c0 = count;
            let column_selected = i == self.selected_column;
            assert(quads_before(cols, i as int + 1) == quads_before(cols, i as int) + 1 + shown_items(cols[i as int]));
            let ghost qs = quads@;
            quads.push(MenuQuad { column: i, row: None, first_vertex: base + c0 + c0, column_selected, row_selected: false });
            count = c0 + 6;
            let items = self.columns[i].item_count;
            let shown = if items < MAX_ITEMS { items } else { MAX_ITEMS };
            let ghost q0 = quads@;
            proof {
                lemma_quads_before_monotone(cols, i as int);
                assert forall|j: int|
                    0 <= j <= i implies #[trigger] q0[quads_before(cols, j)] == (MenuQuad {
                        column: j as usize,
                        row: None,
                        first_vertex: (base + 12 * quads_before(cols, j)) as usize,
                        column_selected: j == self.spec_selected_column(),
                        row_selected: false,
                    }) by {
                    if j < i {
                        assert(quads_before(cols, j + 1) <= quads_before(cols, i as int));
                        assert(quads_before(cols, j + 1) == quads_before(cols, j) + 1 + shown_items(cols[j]));
                        assert(q0[quads_before(cols, j)] == qs[quads_before(cols, j)]);
                    }
                }
                assert forall|j: int, m: int|
                    0 <= j < i && 0 <= m < shown_items(cols[j]) implies #[trigger] q0[quads_before(cols, j) + 1 + m]
                        == (MenuQuad {
                        column: j as usize,
                        row: Some(m as usize),
                        first_vertex: (base + 12 * quads_before(cols, j) + 6 * (1 + m)) as usize,
                        column_selected: j == self.spec_selected_column(),
                        row_selected: m == self.spec_selected_row(),
                    }) by {
                    assert(quads_before(cols, j + 1) <= quads_before(cols, i as int));
                    assert(quads_before(cols, j + 1) == quads_before(cols, j) + 1 + shown_items(cols[j]));
                    assert(q0[quads_before(cols, j) + 1 + m] == qs[quads_before(cols, j) + 1 + m]);
                }
            }
            let mut k: usize = 0;
            while k < shown
                invariant
                    self.wf(),
                    cols == self.spec_columns(),
                    n == self.spec_column_count(),
                    i < n,
                    shown == shown_items(cols[i as int]),
                    k <= shown,
                    c0 == 6 * quads_before(cols, i as int),
                    base + 12 * quads_before(cols, n as int) <= usize::MAX,
                    quads_before(cols, i as int + 1) <= quads_before(cols, n as int),
                    quads_before(cols, i as int + 1) == quads_before(cols, i as int) + 1 + shown,
                    count == c0 + 6 * (1 + k),
                    column_selected == (i == self.spec_selected_column()),
                    quads@.len() == q0.len() + k,
                    q0.len() == quads_before(cols, i as int) + 1,
                    forall|m: int| 0 <= m < q0.len() ==> #[trigger] quads@[m] == q0[m],
                    forall|m: int|
                        0 <= m < k ==> #[trigger] quads@[q0.len() + m] == (MenuQuad {
                            column: i,
                            row: Some(m as usize),
                            first_vertex: (base + 12 * quads_before(cols, i as int) + 6 * (1 + m)) as usize,
                            column_selected,
                            row_selected: m == self.spec_selected_row(),
                        }),
                decreases shown - k,
            {
                quads.push(MenuQuad {
                    column: i,
                    row: Some(k),
                    first_vertex: base + c0 + count,
                    column_selected,
                    row_selected: k == self.selected_row,
                });
                count = count + 6;
                k += 1;
            }
            proof {
                assert forall|j: int, m: int|
                    0 <= j < i + 1 && 0 <= m < shown_items(cols[j]) implies #[trigger] quads@[quads_before(cols, j) + 1 + m]
                        == (MenuQuad {
                        column: j as usize,
                        row: Some(m as usize),
                        first_vertex: (base + 12 * quads_before(cols, j) + 6 * (1 + m)) as usize,
                        column_selected: j == self.spec_selected_column(),
                        row_selected: m == self.spec_selected_row(),
                    }) by {
                    if j < i {
                        assert(quads_before(cols, j + 1) <= quads_before(cols, i as int));
                        assert(quads_before(cols, j + 1) == quads_before(cols, j) + 1 + shown_items(cols[j]));
                        assert(quads@[quads_before(cols, j) + 1 + m] == q0[quads_before(cols, j) + 1 + m]);
                    } else {
                        assert(quads@[q0.len() + m] == quads@[quads_before(cols, j) + 1 + m]);
                    }
                }
                assert forall|j: int|
                    0 <= j < i + 1 implies #[trigger] quads@[quads_before(cols, j)] == (MenuQuad {
                        column: j as usize,
                        row: None,
                        first_vertex: (base + 12 * quads_before(cols, j)) as usize,
                        column_selected: j == self.spec_selected_column(),
                        row_selected: false,
                    }) by {
                    if j < i {
                        assert(quads_before(cols, j + 1) <= quads_before(cols, i as int));
                        assert(quads_before(cols, j + 1) == quads_before(cols, j) + 1 + shown_items(cols[j]));
                    }
                    assert(quads@[quads_before(cols, j)] == q0[quads_before(cols, j)]);
                }
            }
            i += 1;
        }
        (quads, count)
    }

    /// Column `i` of the menu's storage.
    pub fn column(&self, i: usize) -> (c: &XMBColumn)
        requires
            i < MAX_COLUMNS,
        ensures
            *c == self.spec_columns()[i as int],
    {
        &self.columns[i]
    }
}


/// Whether item `j` of column `c` holds `label`, `icon_id` and `path`, as
/// written over the item's earlier bytes `before`.
pub open spec fn item_set_to(
    c: XMBColumn,
    j: int,
    before: XMBItem,
    label: &str,
    icon_id: u16,
    path: &str,
) -> bool {
    &&& c.items[j].label@ == put_c_text(before.label@, label.spec_bytes())
    &&& c.items[j].app_path@ == put_c_text(before.app_path@, path.spec_bytes())
    &&& c.items[j].icon_id == icon_id
}

/// Fills a menu with the platform's standard columns: Games (four
/// emulators), Media (music, videos, photos) and Settings (display, sound,
/// controls). Columns that do not fit are left out; so are items that do
/// not fit in their column.
pub fn init_xmb_menu(menu: &mut XMBMenu)
    requires
        old(menu).wf(),
    ensures
        final(menu).wf(),
        final(menu).spec_column_count() == (if old(menu).spec_column_count() + 3 <= MAX_COLUMNS {
            old(menu).spec_column_count() + 3
        } else {
            MAX_COLUMNS as int
        }),
        final(menu).spec_selected_column() == old(menu).spec_selected_column(),
        final(menu).spec_selected_row() == old(menu).spec_selected_row(),
        ({
            let k = old(menu).spec_column_count() as int;
            let c0 = old(menu).spec_columns();
            let c = final(menu).spec_columns();
            let g = c0[k].item_count as int;
            let m = c0[k + 1].item_count as int;
            let s = c0[k + 2].item_count as int;
            &&& c.len() == c0.len()
            &&& forall|j: int| 0 <= j < c.len() && !(k <= j < k + 3) ==> #[trigger] c[j] == c0[j]
            &&& k < MAX_COLUMNS ==> {
                &&& c[k].label@ == put_c_text(c0[k].label@, "Games".spec_bytes())
                &&& c[k].icon_id == 0
            }
            &&& k < MAX_COLUMNS && g + 4 <= MAX_ITEMS ==> {
                &&& c[k].item_count == g + 4
                &&& item_set_to(c[k], g, c0[k].items[g], "PS1 Emulator", 1, "com.epsxe.ePSXe")
                &&& item_set_to(c[k], g + 1, c0[k].items[g + 1], "PS2 Emulator", 2, "com.damonps2.damonps2")
                &&& item_set_to(c[k], g + 2, c0[k].items[g + 2], "N64 Emulator", 3, "org.mupen64plusae.v3.fzurita")
                &&& item_set_to(c[k], g + 3, c0[k].items[g + 3], "SNES Emulator", 4, "com.explusalpha.Snes9xPlus")
            }
            &&& k + 1 < MAX_COLUMNS ==> {
                &&& c[k + 1].label@ == put_c_text(c0[k + 1].label@, "Media".spec_bytes())
                &&& c[k + 1].icon_id == 5
            }
            &&& k + 1 < MAX_COLUMNS && m + 3 <= MAX_ITEMS ==> {
                &&& c[k + 1].item_count == m + 3
                &&& item_set_to(c[k + 1], m, c0[k + 1].items[m], "Music", 6, "music")
                &&& item_set_to(c[k + 1], m + 1, c0[k + 1].items[m + 1], "Videos", 7, "videos")
                &&& item_set_to(c[k + 1], m + 2, c0[k + 1].items[m + 2], "Photos", 8, "photos")
            }
            &&& k + 2 < MAX_COLUMNS ==> {
                &&& c[k + 2].label@ == put_c_text(c0[k + 2].label@, "Settings".spec_bytes())
                &&& c[k + 2].icon_id == 9
            }
            &&& k + 2 < MAX_COLUMNS && s + 3 <= MAX_ITEMS ==> {
                &&& c[k + 2].item_count == s + 3
                &&& item_set_to(c[k + 2], s, c0[k + 2].items[s], "Display", 10, "display")
                &&& item_set_to(c[k + 2], s + 1, c0[k + 2].items[s + 1], "Sound", 11, "sound")
                &&& item_set_to(c[k + 2], s + 2, c0[k + 2].items[s + 2], "Controls", 12, "controls")
            }
        }),
{
    let ghost c0 = menu.spec_columns();
    let ghost k = menu.spec_column_count() as int;
    match menu.add_column("Games", 0) {
        Ok(col) => {
            let _ = col.add_item("PS1 Emulator", 1, "com.epsxe.ePSXe");
            let _ = col.add_item("PS2 Emulator", 2, "com.damonps2.damonps2");
            let _ = col.add_item("N64 Emulator", 3, "org.mupen64plusae.v3.fzurita");
            let _ = col.add_item("SNES Emulator", 4, "com.explusalpha.Snes9xPlus");
        },
        Err(_) => {},
    }
    match menu.add_column("Media", 5) {
        Ok(col) => {
            let _ = col.add_item("Music", 6, "music");
            let _ = col.add_item("Videos", 7, "videos");
            let _ = col.add_item("Photos", 8, "photos");
        },
        Err(_) => {},
    }
    match menu.add_column("Settings", 9) {
        Ok(col) => {
            let _ = col.add_item("Display", 10, "display");
            let _ = col.add_item("Sound", 11, "sound");
            let _ = col.add_item("Controls", 12, "controls");
        },
        Err(_) => {},
    }
}


/// Moving one column right and then one column left comes back to the
/// column one started from, on its first row; the two transitions mirror
/// each other.
pub proof fn law_menu_right_then_left(m0: XMBMenu, m1: XMBMenu, m2: XMBMenu, t1: (usize, usize), t2: Option<(usize, usize)>)
    requires
        m0.wf(),
        XMBMenu::right_step(m0, m1, Some(t1)),
        XMBMenu::left_step(m1, m2, t2),
    ensures
        m2.spec_selected_column() == m0.spec_selected_column(),
        m2.spec_selected_row() == 0,
        m2.spec_columns() == m0.spec_columns(),
        t2 == Some((t1.1, t1.0)),
{
}

/// Whatever the keys, the selected column stays one of the menu's columns
/// (or the first while there is none).
pub proof fn law_menu_selection_in_range(m: XMBMenu)
    requires
        m.wf(),
    ensures
        m.spec_selected_column() < m.spec_column_count() || m.spec_selected_column() == 0,
        m.spec_column_count() <= MAX_COLUMNS,
{
}

} // verus!
