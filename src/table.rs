//! The event table's state: layout values, selection, cursor and context menu.
use vstd::prelude::*;
use crate::decimal::{parse_chars, parse_spec, pow10, pow10_exec, Decimal};
use crate::event::{event_is, fixture_names, fixture_numbers, Event};
use crate::scan::{
    chars_of, contains, contains_exec, find, first_index, number_end, number_end_exec, slice_of,
    ws_end, ws_end_exec,
};

verus! {

/// Height of the header row, in pixels.
pub const HEADER_HEIGHT: i64 = 36;

/// Height of each event row, in pixels.
pub const ROW_HEIGHT: i64 = 36;

/// The context menu is shifted right by the cursor's x less this many pixels.
pub const MENU_SHIFT_BASE: i64 = 100;

/// The context menu is shifted right by at most this many pixels.
pub const MENU_SHIFT_MAX: i64 = 600;

/// What the table's controls ask for.
#[derive(Clone, Copy, Debug, PartialEq, Eq, Structural)]
pub enum TableMessage {
    PaddingChanged(Decimal, Decimal),
    SeparatorChanged(Decimal, Decimal),
    ShowDetails(usize),
    HideDetails,
    HideContext,
}

/// An open context menu: the row it is for and the cursor position that opened it.
#[derive(Clone, Copy, Debug, PartialEq, Eq, Structural)]
pub struct ContextMenu {
    pub row: usize,
    pub x: Decimal,
    pub y: Decimal,
}

/// The table and its UI state.
#[derive(Debug)]
pub struct Table {
    pub events: Vec<Event>,
    pub padding: (Decimal, Decimal),
    pub separator: (Decimal, Decimal),
    pub selected: Option<usize>,
    pub last_cursor: Option<(Decimal, Decimal)>,
    pub context_menu: Option<ContextMenu>,
}

/// What is laid over the table.
#[derive(Clone, Copy, Debug, PartialEq, Eq, Structural)]
pub enum Overlay {
    /// The details of the event in this row, covering everything else.
    Details(usize),
    /// The context menu for a row, shifted right by `shift` pixels where given.
    Menu { row: usize, shift: Option<u16> },
    Nothing,
}

/// The number whose text follows the first `key` in `s`, after any whitespace.
pub open spec fn number_after(s: Seq<char>, key: Seq<char>) -> Option<Decimal> {
    let i = first_index(s, key);
    if i < 0 {
        None
    } else {
        let t = s.skip(i + key.len());
        let a = ws_end(t, 0);
        parse_spec(t.subrange(a, number_end(t, a)))
    }
}

/// Whether the text describes a cursor move.
pub open spec fn is_move(s: Seq<char>) -> bool {
    contains(s, "CursorMoved"@) || contains(s, "Moved("@) || contains(s, "MovedPoint"@)
}

/// Whether the text describes a press of the right mouse button.
pub open spec fn is_right_press(s: Seq<char>) -> bool {
    (contains(s, "MouseInput"@) || contains(s, "MouseButton"@) || contains(s, "ButtonPressed"@)
        || contains(s, "Pressed"@)) && contains(s, "Right"@)
}

/// The row under height `y`: `floor((y - HEADER_HEIGHT) / ROW_HEIGHT)`, where `y`
/// is below the header. With `y = m / p`, that is `floor((m - H p) / (R p))`.
pub open spec fn row_at(y: Decimal) -> Option<int> {
    let p = pow10(y.scale as nat);
    if y.mantissa > HEADER_HEIGHT * p {
        Some((y.mantissa - HEADER_HEIGHT * p) / (ROW_HEIGHT * p))
    } else {
        None
    }
}

/// `floor(clamp(x - MENU_SHIFT_BASE, 0, MENU_SHIFT_MAX))`.
pub open spec fn menu_shift(x: Decimal) -> int {
    let p = pow10(x.scale as nat);
    let d = x.mantissa - MENU_SHIFT_BASE * p;
    if d <= 0 {
        0
    } else if d >= MENU_SHIFT_MAX * p {
        MENU_SHIFT_MAX as int
    } else {
        d / p
    }
}

/// The table after a message.
pub open spec fn update_spec(t: Table, m: TableMessage) -> Table {
    match m {
        TableMessage::PaddingChanged(x, y) => Table { padding: (x, y), ..t },
        TableMessage::SeparatorChanged(x, y) => Table { separator: (x, y), ..t },
        TableMessage::ShowDetails(i) => Table { selected: Some(i), ..t },
        TableMessage::HideDetails => Table { selected: None, ..t },
        TableMessage::HideContext => Table { context_menu: None, ..t },
    }
}

/// The cursor after a window event described by `s`: the new position where
/// `s` is a move whose x and y both read as numbers, else the old one.
pub open spec fn cursor_after(t: Table, s: Seq<char>) -> Option<(Decimal, Decimal)> {
    let x = number_after(s, "x:"@);
    let y = number_after(s, "y:"@);
    if is_move(s) && x is Some && y is Some {
        Some((x->0, y->0))
    } else {
        t.last_cursor
    }
}

/// The table after a window event described by `s`. A right press opens the
/// context menu at the row under the cursor, where there is such a row.
pub open spec fn window_event_spec(t: Table, s: Seq<char>) -> Table {
    let cursor = cursor_after(t, s);
    let menu = match cursor {
        Some((x, y)) => if is_right_press(s) && row_at(y) is Some && row_at(y)->0 < t.events.len() {
            Some(ContextMenu { row: row_at(y)->0 as usize, x, y })
        } else {
            t.context_menu
        },
        None => t.context_menu,
    };
    Table { last_cursor: cursor, context_menu: menu, ..t }
}

/// What is laid over the table: the details of a selected event that exists
/// come first, then an open context menu.
pub open spec fn overlay_spec(t: Table) -> Overlay {
    if t.selected is Some && t.selected->0 < t.events.len() {
        Overlay::Details(t.selected->0)
    } else if t.context_menu is Some {
        let c = t.context_menu->0;
        Overlay::Menu {
            row: c.row,
            shift: if c.x.mantissa > 0 { Some(menu_shift(c.x) as u16) } else { None },
        }
    } else {
        Overlay::Nothing
    }
}

/// `row_at`, computed.
pub fn row_at_exec(y: Decimal) -> (r: Option<u64>)
    requires
        y.wf(),
    ensures
        r matches Some(i) ==> row_at(y) == Some(i as int),
        r is None ==> row_at(y) is None,
{
    let p: i128 = pow10_exec(y.scale) as i128;
    proof {
        crate::decimal::lemma_pow10_bounds(y.scale as nat);
        assert(1 <= p <= 1_000_000_000_000_000_000);
    }
    let m: i128 = y.mantissa as i128;
    let hh: i128 = HEADER_HEIGHT as i128;
    let h: i128 = hh * p;
    if m > h {
        let q: i128 = (m - h) / (ROW_HEIGHT as i128 * p);
        assert(q <= m - h) by (nonlinear_arith)
            requires
                q == (m - h) / (ROW_HEIGHT as i128 * p),
                m - h > 0,
                p >= 1,
        ;
        Some(q as u64)
    } else {
        None
    }
}

/// `menu_shift`, computed.
pub fn menu_shift_exec(x: Decimal) -> (r: u16)
    requires
        x.wf(),
    ensures
        r == menu_shift(x),
{
    let p: i128 = pow10_exec(x.scale) as i128;
    proof {
        crate::decimal::lemma_pow10_bounds(x.scale as nat);
        assert(1 <= p <= 1_000_000_000_000_000_000);
    }
    let base: i128 = MENU_SHIFT_BASE as i128;
    let d: i128 = x.mantissa as i128 - base * p;
    if d <= 0 {
        0
    } else if d >= MENU_SHIFT_MAX as i128 * p {
        MENU_SHIFT_MAX as u16
    } else {
        let q: i128 = d / p;
        assert(0 <= q < 600) by (nonlinear_arith)
            requires
                q == d / p,
                0 < d < 600 * p,
                p >= 1,
        ;
        q as u16
    }
}

/// `number_after`, computed.
fn number_after_exec(s: &Vec<char>, key: &Vec<char>) -> (r: Option<Decimal>)
    ensures
        r == number_after(s@, key@),
        r matches Some(d) ==> d.wf(),
{
    let n: usize = s.len();
    match find(s, key) {
        None => None,
        Some(i) => {
            proof {
                crate::scan::lemma_find_from_bounds(s@, key@, 0);
                assert(first_index(s@, key@) == i);
                assert(i + key@.len() <= s@.len());
            }
            let t = slice_of(s, i + key.len(), n);
            assert(t@ =~= s@.skip(i + key@.len()));
            let a = ws_end_exec(&t, 0);
            let b = number_end_exec(&t, a);
            let text = slice_of(&t, a, b);
            parse_chars(&text)
        },
    }
}

impl Table {
    /// The decimals that are computed with are in range, and an open context
    /// menu is for a row that exists.
    pub open spec fn wf(self) -> bool {
        &&& (self.last_cursor matches Some(c) ==> c.0.wf() && c.1.wf())
        &&& (self.context_menu matches Some(c) ==> c.x.wf() && c.y.wf() && c.row < self.events@.len())
    }

    /// A table of the sample events.
    pub fn new() -> (r: Table)
        ensures
            r.wf(),
            r.events@.len() == fixture_names().len(),
            forall|i: int|
                0 <= i < r.events@.len() ==> event_is(
                    #[trigger] r.events@[i],
                    fixture_names()[i],
                    fixture_numbers()[i],
                ),
            r.padding == (Decimal { mantissa: 10, scale: 0 }, Decimal { mantissa: 5, scale: 0 }),
            r.separator == (Decimal { mantissa: 1, scale: 0 }, Decimal { mantissa: 1, scale: 0 }),
            r.selected is None,
            r.last_cursor is None,
            r.context_menu is None,
    {
        Table::default()
    }

    /// Applies a message.
    pub fn update(&mut self, message: TableMessage)
        ensures
            *final(self) == update_spec(*old(self), message),
    {
        match message {
            TableMessage::PaddingChanged(x, y) => self.padding = (x, y),
            TableMessage::SeparatorChanged(x, y) => self.separator = (x, y),
            TableMessage::ShowDetails(idx) => self.selected = Some(idx),
            TableMessage::HideDetails => self.selected = None,
            TableMessage::HideContext => self.context_menu = None,
        }
    }

    /// Takes in the text that describes a window event: keeps the cursor
    /// position that a move reports, and opens the context menu on a right press.
    pub fn on_window_event_debug(&mut self, debug: &str)
        requires
            old(self).wf(),
        ensures
            *final(self) == window_event_spec(*old(self), debug@),
            final(self).wf(),
    {
        let s = chars_of(debug);
        let moved = contains_exec(&s, &chars_of("CursorMoved")) || contains_exec(
            &s,
            &chars_of("Moved("),
        ) || contains_exec(&s, &chars_of("MovedPoint"));
        if moved {
            let x_opt = number_after_exec(&s, &chars_of("x:"));
            let y_opt = number_after_exec(&s, &chars_of("y:"));
            if let (Some(xv), Some(yv)) = (x_opt, y_opt) {
                self.last_cursor = Some((xv, yv));
            }
        }
        let pressed = (contains_exec(&s, &chars_of("MouseInput")) || contains_exec(
            &s,
            &chars_of("MouseButton"),
        ) || contains_exec(&s, &chars_of("ButtonPressed")) || contains_exec(
            &s,
            &chars_of("Pressed"),
        )) && contains_exec(&s, &chars_of("Right"));
        if pressed {
            if let Some((x, y)) = self.last_cursor {
                if let Some(idx) = row_at_exec(y) {
                    if (idx as u128) < (self.events.len() as u128) {
                        self.context_menu = Some(ContextMenu { row: idx as usize, x, y });
                    }
                }
            }
        }
    }

    /// What is laid over the table.
    pub fn overlay(&self) -> (r: Overlay)
        requires
            self.wf(),
        ensures
            r == overlay_spec(*self),
    {
        if let Some(idx) = self.selected {
            if idx < self.events.len() {
                return Overlay::Details(idx);
            }
        }
        match self.context_menu {
            Some(c) => {
                let shift = if c.x.mantissa > 0 {
                    Some(menu_shift_exec(c.x))
                } else {
                    None
                };
                Overlay::Menu { row: c.row, shift }
            },
            None => Overlay::Nothing,
        }
    }
}

impl Default for Table {
    fn default() -> (r: Table)
        ensures
            r.wf(),
            r.events@.len() == fixture_names().len(),
            forall|i: int|
                0 <= i < r.events@.len() ==> event_is(
                    #[trigger] r.events@[i],
                    fixture_names()[i],
                    fixture_numbers()[i],
                ),
            r.padding == (Decimal { mantissa: 10, scale: 0 }, Decimal { mantissa: 5, scale: 0 }),
            r.separator == (Decimal { mantissa: 1, scale: 0 }, Decimal { mantissa: 1, scale: 0 }),
            r.selected is None,
            r.last_cursor is None,
            r.context_menu is None,
    {
        Table {
            events: Event::list(),
            padding: (Decimal::from_int(10), Decimal::from_int(5)),
            separator: (Decimal::from_int(1), Decimal::from_int(1)),
            selected: None,
            last_cursor: None,
            context_menu: None,
        }
    }
}

} // verus!

verus! {

/// A message keeps the table well formed.
pub proof fn lemma_update_keeps_wf(t: Table, m: TableMessage)
    requires
        t.wf(),
    ensures
        update_spec(t, m).wf(),
{
}

/// A padding or separator message sets that pair to exactly its values, and
/// applying it twice is the same as once.
pub proof fn lemma_layout_set(t: Table, x: Decimal, y: Decimal)
    ensures
        update_spec(t, TableMessage::PaddingChanged(x, y)).padding == (x, y),
        update_spec(t, TableMessage::SeparatorChanged(x, y)).separator == (x, y),
        update_spec(update_spec(t, TableMessage::PaddingChanged(x, y)), TableMessage::PaddingChanged(x, y))
            == update_spec(t, TableMessage::PaddingChanged(x, y)),
        update_spec(
            update_spec(t, TableMessage::SeparatorChanged(x, y)),
            TableMessage::SeparatorChanged(x, y),
        ) == update_spec(t, TableMessage::SeparatorChanged(x, y)),
{
}

/// Selecting any row and then clearing the selection leaves no selection, and
/// the table as clearing alone would.
pub proof fn lemma_select_then_clear(t: Table, i: usize)
    ensures
        update_spec(update_spec(t, TableMessage::ShowDetails(i)), TableMessage::HideDetails).selected is None,
        update_spec(update_spec(t, TableMessage::ShowDetails(i)), TableMessage::HideDetails)
            == update_spec(t, TableMessage::HideDetails),
{
}

/// Selecting a row past the last event shows no details.
pub proof fn lemma_select_out_of_range(t: Table, i: usize)
    requires
        i >= t.events@.len(),
    ensures
        !(overlay_spec(update_spec(t, TableMessage::ShowDetails(i))) is Details),
{
}

/// A window event opens the context menu only at the row under the cursor,
/// `floor((y - HEADER_HEIGHT) / ROW_HEIGHT)`, and only where that row exists.
pub proof fn lemma_menu_row_in_range(t: Table, s: Seq<char>)
    requires
        t.wf(),
    ensures
        ({
            let u = window_event_spec(t, s);
            u.context_menu != t.context_menu ==> {
                let c = u.context_menu->0;
                &&& u.context_menu is Some
                &&& is_right_press(s)
                &&& u.last_cursor == Some((c.x, c.y))
                &&& row_at(c.y) == Some(c.row as int)
                &&& 0 <= c.row < t.events@.len()
            }
        }),
{
    if let Some((x, y)) = cursor_after(t, s) {
        lemma_row_at_nonneg(y);
    }
}

proof fn lemma_row_at_nonneg(y: Decimal)
    ensures
        row_at(y) matches Some(r) ==> r >= 0,
{
    let p = pow10(y.scale as nat);
    crate::decimal::lemma_pow10_grows(0, y.scale as nat);
    if y.mantissa > HEADER_HEIGHT * p {
        let a = y.mantissa - HEADER_HEIGHT * p;
        assert(a / (ROW_HEIGHT * p) >= 0) by (nonlinear_arith)
            requires
                a > 0,
                p >= 1,
        ;
    }
}

} // verus!
