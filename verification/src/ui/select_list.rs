use ratatui::widgets::ListState;
use vstd::prelude::*;

verus! {

/// A list of names of which at most one is highlighted.
#[derive(Debug)]
pub struct SelectList {
    items: Vec<String>,
    selected: Option<usize>,
}

/// What a list holds, as mathematics: its names in order, and the position of
/// the highlighted one.
pub struct SelectListView {
    pub items: Seq<Seq<char>>,
    pub selected: Option<nat>,
}

/// The highlight `wanted`, fitted to a list of `len` names: nothing can be
/// highlighted in an empty list, and a position past the end becomes the last.
pub open spec fn fitted(wanted: Option<nat>, len: nat) -> Option<nat> {
    match wanted {
        Some(i) if len > 0 => Some(if i < len { i } else { (len - 1) as nat }),
        _ => None,
    }
}

impl SelectListView {
    /// The highlight, if there is one, points at a name of the list.
    pub open spec fn wf(self) -> bool {
        self.selected matches Some(i) ==> i < self.items.len()
    }

    /// The highlighted name.
    pub open spec fn chosen(self) -> Option<Seq<char>> {
        match self.selected {
            Some(i) if i < self.items.len() => Some(self.items[i as int]),
            _ => None,
        }
    }

    /// The same names with the highlight asked to be at `wanted`.
    pub open spec fn with_highlight(self, wanted: Option<nat>) -> SelectListView {
        SelectListView { items: self.items, selected: fitted(wanted, self.items.len()) }
    }

    /// One step down: from no highlight to the first name, otherwise to the
    /// next name, stopping at the last.
    pub open spec fn moved_down(self) -> SelectListView {
        self.with_highlight(
            Some(
                match self.selected {
                    Some(i) => i + 1,
                    None => 0,
                },
            ),
        )
    }

    /// One step up: from no highlight to the last name, otherwise to the
    /// previous name, stopping at the first.
    pub open spec fn moved_up(self) -> SelectListView {
        match self.selected {
            Some(i) => self.with_highlight(Some(if i > 0 { (i - 1) as nat } else { 0 })),
            None => self.with_highlight(Some(self.items.len())),
        }
    }

    /// Other names under the old highlight, which is pulled back into range.
    pub open spec fn relisted(self, items: Seq<Seq<char>>) -> SelectListView {
        SelectListView { items, selected: self.selected }.with_highlight(self.selected)
    }
}

/// One thing that can be done to a list.
pub enum ListOp {
    /// Move the highlight one name down.
    Next,
    /// Move the highlight one name up.
    Previous,
    /// Put the highlight at a position, or take it away.
    Select(Option<nat>),
    /// Put other names in the list.
    Replace(Seq<Seq<char>>),
}

impl SelectListView {
    /// The list after `op` was done to it.
    pub open spec fn apply(self, op: ListOp) -> SelectListView {
        match op {
            ListOp::Next => self.moved_down(),
            ListOp::Previous => self.moved_up(),
            ListOp::Select(wanted) => self.with_highlight(wanted),
            ListOp::Replace(items) => self.relisted(items),
        }
    }

    /// The list after all of `ops` were done to it, first to last.
    pub open spec fn apply_all(self, ops: Seq<ListOp>) -> SelectListView
        decreases ops.len(),
    {
        if ops.len() == 0 {
            self
        } else {
            self.apply_all(ops.drop_last()).apply(ops.last())
        }
    }
}

/// Whatever is done to a list, and however often, its highlight is absent or
/// on one of its names.
pub proof fn lemma_highlight_in_range(list: SelectListView, ops: Seq<ListOp>)
    requires
        list.wf(),
    ensures
        list.apply_all(ops).wf(),
    decreases ops.len(),
{
    if ops.len() > 0 {
        lemma_highlight_in_range(list, ops.drop_last());
    }
}

/// In an empty list nothing is ever highlighted, and in a list with names a
/// move always ends on one of them.
pub proof fn lemma_moves(list: SelectListView, op: ListOp)
    requires
        list.wf(),
        op is Next || op is Previous,
    ensures
        list.apply(op).items == list.items,
        list.items.len() == 0 <==> list.apply(op).selected.is_none(),
{
}

/// A highlight that is in range stays where it is when the list is replaced
/// by one that is long enough for it.
pub proof fn lemma_relisted_keeps_place(list: SelectListView, items: Seq<Seq<char>>)
    requires
        list.wf(),
    ensures
        list.selected matches Some(i) ==> (i < items.len() ==> list.relisted(items).selected
            == Some(i)),
        list.selected.is_none() ==> list.relisted(items).selected.is_none(),
{
}

/// The highlight one step further down, before it is fitted to any list.
///
/// Trusted: the body runs ratatui's `ListState::select_next` on a state whose
/// selection is `selected` and reads the selection back. In ratatui's source
/// that method selects index 0 when nothing is selected, and otherwise the
/// index one higher, saturating at `usize::MAX`.
#[verifier::external_body]
fn list_state_next(selected: Option<usize>) -> (next: Option<usize>)
    ensures
        next == Some(
            match selected {
                Some(i) => if i < usize::MAX { (i + 1) as usize } else { i },
                None => 0usize,
            },
        ),
{
    let mut state = ListState::default().with_selected(selected);
    state.select_next();
    state.selected()
}

/// The highlight one step further up, before it is fitted to any list.
///
/// Trusted: the body runs ratatui's `ListState::select_previous` on a state
/// whose selection is `selected` and reads the selection back. In ratatui's
/// source that method selects `usize::MAX` when nothing is selected, and
/// otherwise the index one lower, saturating at 0.
#[verifier::external_body]
fn list_state_previous(selected: Option<usize>) -> (previous: Option<usize>)
    ensures
        previous == Some(
            match selected {
                Some(i) => if i > 0 { (i - 1) as usize } else { 0usize },
                None => usize::MAX,
            },
        ),
{
    let mut state = ListState::default().with_selected(selected);
    state.select_previous();
    state.selected()
}

/// A highlight as a mathematical position.
pub open spec fn position(selected: Option<usize>) -> Option<nat> {
    match selected {
        Some(i) => Some(i as nat),
        None => None,
    }
}

impl View for SelectList {
    type V = SelectListView;

    closed spec fn view(&self) -> SelectListView {
        SelectListView { items: self.items.deep_view(), selected: position(self.selected) }
    }
}

impl SelectList {
    /// Whether the highlight is in range.
    pub open spec fn wf(&self) -> bool {
        self@.wf()
    }

    /// A list of the given names with nothing highlighted.
    pub fn new(items: Vec<String>) -> (list: Self)
        ensures
            list@ == (SelectListView { items: items.deep_view(), selected: None }),
            list.wf(),
    {
        Self { items, selected: None }
    }

    /// The names, in order.
    pub fn items(&self) -> (items: &Vec<String>)
        ensures
            items.deep_view() == self@.items,
    {
        &self.items
    }

    /// The position of the highlighted name.
    pub fn selected(&self) -> (selected: Option<usize>)
        ensures
            position(selected) == self@.selected,
    {
        self.selected
    }

    /// The highlighted name.
    pub fn selected_item(&self) -> (item: Option<&String>)
        requires
            self.wf(),
        ensures
            match item {
                Some(name) => self@.chosen() == Some(name@),
                None => self@.chosen().is_none(),
            },
    {
        match self.selected {
            Some(i) => Some(&self.items[i]),
            None => None,
        }
    }

    /// Puts the highlight at `index`, or as near to it as the list allows.
    pub fn select(&mut self, index: Option<usize>)
        ensures
            final(self)@ == old(self)@.with_highlight(position(index)),
            final(self).wf(),
    {
        self.selected = match index {
            Some(i) if self.items.len() > 0 => Some(
                if i < self.items.len() {
                    i
                } else {
                    self.items.len() - 1
                },
            ),
            _ => None,
        };
    }

    /// Moves the highlight one name down.
    pub fn select_next(&mut self)
        requires
            old(self).wf(),
        ensures
            final(self)@ == old(self)@.moved_down(),
            final(self).wf(),
    {
        assert(self.items.len() == self@.items.len());
        let wanted = list_state_next(self.selected);
        self.select(wanted);
    }

    /// Moves the highlight one name up.
    pub fn select_previous(&mut self)
        requires
            old(self).wf(),
        ensures
            final(self)@ == old(self)@.moved_up(),
            final(self).wf(),
    {
        assert(self.items.len() == self@.items.len());
        let wanted = list_state_previous(self.selected);
        self.select(wanted);
    }

    /// Puts other names in the list. The highlight stays where it was, or
    /// moves to the last name if the list became too short for it.
    pub fn replace_items(&mut self, items: Vec<String>)
        ensures
            final(self)@ == old(self)@.relisted(items.deep_view()),
            final(self).wf(),
    {
        let kept = self.selected;
        self.items = items;
        self.select(kept);
    }
}

} // verus!
