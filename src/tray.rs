//! The tray menu registry: labels of the tray menu's items and their identifiers.
use vstd::prelude::*;

verus! {

/// Label of the tray menu item that shows the window.
pub const STR_SHOW: &'static str = "Show";

/// Label of the tray menu item that quits.
pub const STR_QUIT: &'static str = "Quit";

/// What a tray menu click asks for.
#[derive(Clone, Copy, Debug, PartialEq, Eq, Structural)]
pub enum TrayAction {
    Show,
    Quit,
    Ignore,
}

/// Menu item identifiers by label. The newest entry for a label stands first.
#[derive(Debug)]
pub struct TrayRegistry {
    entries: Vec<(String, String)>,
}

/// The identifier of the first entry with `label`.
pub open spec fn lookup(entries: Seq<(String, String)>, label: Seq<char>) -> Option<Seq<char>>
    decreases entries.len(),
{
    if entries.len() == 0 {
        None
    } else if entries[0].0@ == label {
        Some(entries[0].1@)
    } else {
        lookup(entries.drop_first(), label)
    }
}

/// The action for a click on the item with identifier `id`: quitting where it
/// is the "Quit" item, showing where it is the "Show" item, else nothing.
pub open spec fn resolve_spec(m: Map<Seq<char>, Seq<char>>, id: Seq<char>) -> TrayAction {
    if m.contains_key(STR_QUIT@) && m[STR_QUIT@] == id {
        TrayAction::Quit
    } else if m.contains_key(STR_SHOW@) && m[STR_SHOW@] == id {
        TrayAction::Show
    } else {
        TrayAction::Ignore
    }
}

impl View for TrayRegistry {
    type V = Map<Seq<char>, Seq<char>>;

    closed spec fn view(&self) -> Map<Seq<char>, Seq<char>> {
        Map::new(
            |k: Seq<char>| lookup(self.entries@, k) is Some,
            |k: Seq<char>| lookup(self.entries@, k)->0,
        )
    }
}

impl TrayRegistry {
    /// An empty registry.
    pub fn new() -> (r: TrayRegistry)
        ensures
            r@ == Map::<Seq<char>, Seq<char>>::empty(),
    {
        let r = TrayRegistry { entries: Vec::new() };
        assert(r@ =~= Map::<Seq<char>, Seq<char>>::empty());
        r
    }

    /// Records `id` under `label`, in place of any earlier one.
    pub fn insert(&mut self, label: &str, id: String)
        ensures
            final(self)@ == old(self)@.insert(label@, id@),
    {
        let ghost before = self.entries@;
        self.entries.insert(0, (label.to_owned(), id));
        proof {
            assert(self.entries@.drop_first() =~= before);
            assert(self@ =~= old(self)@.insert(label@, id@));
        }
    }

    /// The identifier recorded under `label`.
    pub fn get(&self, label: &str) -> (r: Option<&String>)
        ensures
            r matches Some(v) ==> self@.contains_key(label@) && self@[label@] == v@,
            r is None ==> !self@.contains_key(label@),
    {
        let key = label.to_owned();
        let mut i: usize = 0;
        assert(self.entries@.skip(0) =~= self.entries@);
        while i < self.entries.len()
            invariant
                i <= self.entries@.len(),
                key@ == label@,
                lookup(self.entries@, label@) == lookup(self.entries@.skip(i as int), label@),
            decreases self.entries@.len() - i,
        {
            if self.entries[i].0 == key {
                return Some(&self.entries[i].1);
            }
            assert(self.entries@.skip(i as int).drop_first() =~= self.entries@.skip(i + 1));
            i = i + 1;
        }
        None
    }

    /// The action for a click on the tray menu item with identifier `id`.
    pub fn resolve(&self, id: &str) -> (r: TrayAction)
        ensures
            r == resolve_spec(self@, id@),
    {
        let id = id.to_owned();
        if let Some(q) = self.get(STR_QUIT) {
            if *q == id {
                return TrayAction::Quit;
            }
        }
        if let Some(s) = self.get(STR_SHOW) {
            if *s == id {
                return TrayAction::Show;
            }
        }
        TrayAction::Ignore
    }
}

/// Once "Show" and "Quit" are recorded with distinct identifiers, a click on
/// the "Show" item shows, one on the "Quit" item quits, and any other does nothing.
pub proof fn lemma_registry_resolves(show_id: Seq<char>, quit_id: Seq<char>, other: Seq<char>)
    requires
        show_id != quit_id,
        other != show_id,
        other != quit_id,
    ensures
        ({
            let m = Map::<Seq<char>, Seq<char>>::empty().insert(STR_SHOW@, show_id).insert(
                STR_QUIT@,
                quit_id,
            );
            &&& resolve_spec(m, show_id) == TrayAction::Show
            &&& resolve_spec(m, quit_id) == TrayAction::Quit
            &&& resolve_spec(m, other) == TrayAction::Ignore
        }),
{
    reveal_strlit("Show");
    reveal_strlit("Quit");
    assert(STR_SHOW@ != STR_QUIT@) by {
        assert(STR_SHOW@[0] != STR_QUIT@[0]);
    }
}

} // verus!
