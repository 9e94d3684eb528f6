//! The bar's command palette: which suggestions it lists, which one is
//! selected, and what each key does.
use vstd::prelude::*;
use vstd::string::*;

use crate::text::text_eq;

verus! {

/// How many suggestions the palette lists at most.
pub const MAX_ROWS: usize = 6;

/// What the palette keeps of a listed suggestion.
#[derive(Debug, Clone)]
pub struct PaletteEntry {
    pub id: String,
    pub action: String,
    pub source: String,
}

/// The palette: whether it is shown, its rows, and the selected row.
#[derive(Debug, Clone)]
pub struct PaletteModel {
    pub visible: bool,
    pub rows: Vec<PaletteEntry>,
    pub selected: Option<usize>,
}

pub open spec fn ids_of(rows: Seq<PaletteEntry>) -> Seq<Seq<char>> {
    rows.map_values(|e: PaletteEntry| e.id@)
}

/// The keys the palette listens to.
#[derive(Debug, Clone, Copy, PartialEq, Eq, Structural)]
pub enum PaletteKey {
    Down,
    Up,
    Tab,
    Enter,
    Escape,
    Other,
}

/// What a key press did.
#[derive(Debug, Clone, Copy, PartialEq, Eq, Structural)]
pub struct KeyOutcome {
    /// The palette used the key.
    pub consumed: bool,
    /// The row whose suggestion was accepted.
    pub chosen: Option<usize>,
}

impl PaletteModel {
    pub fn new() -> (m: Self)
        ensures
            !m.visible,
            m.rows@.len() == 0,
            m.selected is None,
    {
        PaletteModel { visible: false, rows: Vec::new(), selected: None }
    }

    /// Hide the palette and forget its rows and selection.
    pub fn dismiss(&mut self)
        ensures
            !final(self).visible,
            final(self).rows@.len() == 0,
            final(self).selected is None,
    {
        self.visible = false;
        self.rows = Vec::new();
        self.selected = None;
    }

    /// Handle a key: arrows move the selection within the rows, Tab accepts
    /// the first row, Enter the selected one, and both close the palette, as
    /// Escape does. A hidden palette takes no key; one without rows takes
    /// only Escape.
    pub fn handle_key(&mut self, key: PaletteKey) -> (r: KeyOutcome)
        ensures
            !old(self).visible ==> r == (KeyOutcome { consumed: false, chosen: None }) && *final(self) == *old(self),
            old(self).visible && old(self).rows@.len() == 0 ==> r == (KeyOutcome {
                consumed: key == PaletteKey::Escape,
                chosen: None,
            }) && *final(self) == *old(self),
            old(self).visible && old(self).rows@.len() > 0 ==> {
                let n = old(self).rows@.len();
                match key {
                    PaletteKey::Down => r == (KeyOutcome { consumed: true, chosen: None }) && final(self).selected
                        == Some(
                        match old(self).selected {
                            Some(i) => if i + 1 < n { (i + 1) as usize } else { (n - 1) as usize },
                            None => 0usize,
                        },
                    ) && final(self).rows == old(self).rows && final(self).visible,
                    PaletteKey::Up => r == (KeyOutcome { consumed: true, chosen: None }) && final(self).selected
                        == Some(
                        match old(self).selected {
                            Some(i) => if i > 0 { (i - 1) as usize } else { 0usize },
                            None => 0usize,
                        },
                    ) && final(self).rows == old(self).rows && final(self).visible,
                    PaletteKey::Tab => r == (KeyOutcome { consumed: true, chosen: Some(0usize) }) && !final(self).visible && final(self).rows@.len() == 0 && final(self).selected is None,
                    PaletteKey::Enter => r == (KeyOutcome {
                        consumed: true,
                        chosen: match old(self).selected {
                            Some(i) => if i < n { Some(i) } else { None },
                            None => None,
                        },
                    }) && !final(self).visible && final(self).rows@.len() == 0 && final(self).selected is None,
                    PaletteKey::Escape => r == (KeyOutcome { consumed: true, chosen: None }) && !final(self).visible && final(self).rows@.len() == 0 && final(self).selected is None,
                    PaletteKey::Other => r == (KeyOutcome { consumed: false, chosen: None }) && *final(self)
                        == *old(self),
                }
            },
    {
        if !self.visible {
            return KeyOutcome { consumed: false, chosen: None };
        }
        let n = self.rows.len();
        if n == 0 {
            return KeyOutcome { consumed: key == PaletteKey::Escape, chosen: None };
        }
        match key {
            PaletteKey::Down => {
                let next = match self.selected {
                    Some(i) => if i < n - 1 { i + 1 } else { n - 1 },
                    None => 0,
                };
                self.selected = Some(next);
                KeyOutcome { consumed: true, chosen: None }
            },
            PaletteKey::Up => {
                let prev = match self.selected {
                    Some(i) => if i > 0 { i - 1 } else { 0 },
                    None => 0,
                };
                self.selected = Some(prev);
                KeyOutcome { consumed: true, chosen: None }
            },
            PaletteKey::Tab => {
                self.dismiss();
                KeyOutcome { consumed: true, chosen: Some(0) }
            },
            PaletteKey::Enter => {
                let chosen = match self.selected {
                    Some(i) => if i < n { Some(i) } else { None },
                    None => None,
                };
                self.dismiss();
                KeyOutcome { consumed: true, chosen }
            },
            PaletteKey::Escape => {
                self.dismiss();
                KeyOutcome { consumed: true, chosen: None }
            },
            PaletteKey::Other => KeyOutcome { consumed: false, chosen: None },
        }
    }
}

pub open spec fn all_in(new_ids: Seq<Seq<char>>, old_ids: Seq<Seq<char>>) -> bool {
    forall|k: int| 0 <= k < new_ids.len() ==> old_ids.contains(#[trigger] new_ids[k])
}

fn contains_id(rows: &Vec<PaletteEntry>, id: &str) -> (r: bool)
    ensures
        r == ids_of(rows@).contains(id@),
{
    let mut i: usize = 0;
    while i < rows.len()
        invariant
            i <= rows@.len(),
            forall|k: int| 0 <= k < i ==> rows@[k].id@ != id@,
        decreases rows@.len() - i,
    {
        if text_eq(rows[i].id.as_str(), id) {
            assert(ids_of(rows@)[i as int] == id@);
            return true;
        }
        i += 1;
    }
    assert forall|k: int| 0 <= k < ids_of(rows@).len() implies ids_of(rows@)[k] != id@ by {
        assert(ids_of(rows@)[k] == rows@[k].id@);
    }
    false
}

fn same_ids(a: &Vec<PaletteEntry>, b: &Vec<PaletteEntry>) -> (r: bool)
    ensures
        r == (ids_of(a@) == ids_of(b@)),
{
    if a.len() != b.len() {
        assert(ids_of(a@).len() != ids_of(b@).len());
        return false;
    }
    let mut i: usize = 0;
    while i < a.len()
        invariant
            a@.len() == b@.len(),
            i <= a@.len(),
            forall|k: int| 0 <= k < i ==> a@[k].id@ == b@[k].id@,
        decreases a@.len() - i,
    {
        if !text_eq(a[i].id.as_str(), b[i].id.as_str()) {
            assert(ids_of(a@)[i as int] != ids_of(b@)[i as int]);
            return false;
        }
        i += 1;
    }
    assert(ids_of(a@) =~= ids_of(b@));
    true
}

/// Show new suggestions (at most six are kept). The same list as before
/// changes nothing. An empty list hides the palette. A list whose ids all
/// appeared before keeps the selection where it still fits; any other list
/// selects its first row.
pub fn update_suggestions(m: &mut PaletteModel, suggestions: Vec<PaletteEntry>)
    ensures
        ({
            let new_rows = suggestions@.take(if suggestions@.len() < 6 { suggestions@.len() as int } else { 6 });
            let new_ids = ids_of(new_rows);
            let old_ids = ids_of(old(m).rows@);
            if new_ids == old_ids && new_ids.len() > 0 {
                *final(m) == *old(m)
            } else if new_rows.len() == 0 {
                !final(m).visible && final(m).rows@.len() == 0 && final(m).selected is None
            } else {
                &&& final(m).visible
                &&& final(m).rows@ == new_rows
                &&& final(m).selected == if old_ids.len() > 0 && all_in(new_ids, old_ids) {
                    match old(m).selected {
                        Some(i) => if i < new_rows.len() { Some(i) } else { None },
                        None => None,
                    }
                } else {
                    Some(0usize)
                }
            }
        }),
{
    let mut new_rows = suggestions;
    if new_rows.len() > MAX_ROWS {
        new_rows.truncate(MAX_ROWS);
    }
    assert(new_rows@ == suggestions@.take(if suggestions@.len() < 6 { suggestions@.len() as int } else { 6 }));
    if new_rows.len() > 0 && same_ids(&m.rows, &new_rows) {
        return;
    }
    let mut stable = new_rows.len() > 0 && m.rows.len() > 0;
    let mut k: usize = 0;
    while k < new_rows.len()
        invariant
            k <= new_rows@.len(),
            stable ==> forall|j: int| 0 <= j < k ==> ids_of(m.rows@).contains(#[trigger] ids_of(new_rows@)[j]),
            stable ==> (new_rows@.len() > 0 && m.rows@.len() > 0),
            !stable ==> !(new_rows@.len() > 0 && m.rows@.len() > 0 && all_in(ids_of(new_rows@), ids_of(m.rows@))),
        decreases new_rows@.len() - k,
    {
        if stable && !contains_id(&m.rows, new_rows[k].id.as_str()) {
            assert(ids_of(new_rows@)[k as int] == new_rows@[k as int].id@);
            stable = false;
        }
        k += 1;
    }
    if new_rows.len() == 0 {
        m.dismiss();
        return;
    }
    let n = new_rows.len();
    let selected = if stable {
        match m.selected {
            Some(i) => if i < n { Some(i) } else { None },
            None => None,
        }
    } else {
        Some(0)
    };
    m.rows = new_rows;
    m.selected = selected;
    m.visible = true;
}

/// The preview line of the selected suggestion: "↳ <action> — <source>";
/// none without a selection that fits.
pub fn preview_text(m: &PaletteModel) -> (r: Option<String>)
    ensures
        match m.selected {
            Some(i) => if i < m.rows@.len() {
                r matches Some(t) && t@ == "↳ "@ + m.rows@[i as int].action@ + " — "@ + m.rows@[i as int].source@
            } else {
                r is None
            },
            None => r is None,
        },
{
    match m.selected {
        Some(i) => {
            if i < m.rows.len() {
                let e = &m.rows[i];
                Some(String::from_str("↳ ").concat(e.action.as_str()).concat(" — ").concat(e.source.as_str()))
            } else {
                None
            }
        },
        None => None,
    }
}

/// The glyph shown for a suggestion's icon name.
pub open spec fn spec_icon_for(icon: Seq<char>) -> Seq<char> {
    if icon == "workflow"@ {
        "\u{2699}"@
    } else if icon == "snapshot"@ {
        "\u{1F4F7}"@
    } else if icon == "restore"@ {
        "\u{21A9}"@
    } else if icon == "app"@ {
        "\u{25A0}"@
    } else if icon == "search"@ {
        "\u{1F50D}"@
    } else if icon == "action"@ {
        "\u{26A1}"@
    } else if icon == "context"@ {
        "\u{1F310}"@
    } else {
        "\u{25B6}"@
    }
}

pub fn icon_for(icon: &str) -> (r: &'static str)
    ensures
        r@ == spec_icon_for(icon@),
{
    if text_eq(icon, "workflow") {
        "\u{2699}"
    } else if text_eq(icon, "snapshot") {
        "\u{1F4F7}"
    } else if text_eq(icon, "restore") {
        "\u{21A9}"
    } else if text_eq(icon, "app") {
        "\u{25A0}"
    } else if text_eq(icon, "search") {
        "\u{1F50D}"
    } else if text_eq(icon, "action") {
        "\u{26A1}"
    } else if text_eq(icon, "context") {
        "\u{1F310}"
    } else {
        "\u{25B6}"
    }
}

} // verus!
