use vstd::prelude::*;
use vstd::string::*;

use crate::directory::{lemma_names_in_not_empty, lemma_resolve, PathView};
use crate::events::{Event, KeyCode};
use crate::ui::model::{shown, AppMode, AppView, ReplyView};

verus! {

/// One thing that can happen to the browser: the terminal reports an event,
/// the filesystem answers a request, or the current directory is listed anew.
pub enum Happening {
    Event(Event),
    Reply(ReplyView),
    Listing(Option<Seq<Option<Seq<char>>>>),
}

impl Happening {
    /// Whether this is the press of the key that leaves the browser.
    pub open spec fn quits(self) -> bool {
        self matches Happening::Event(event) && event.pressed() == Some(KeyCode::Char('q'))
    }
}

impl AppView {
    /// The state after one thing happened.
    pub open spec fn on(self, happening: Happening) -> AppView {
        match happening {
            Happening::Event(event) => self.on_event(event).state,
            Happening::Reply(reply) => self.on_reply(reply).state,
            Happening::Listing(read) => self.on_listing(read),
        }
    }

    /// The state after all of `happenings`, first to last.
    pub open spec fn after(self, happenings: Seq<Happening>) -> AppView
        decreases happenings.len(),
    {
        if happenings.len() == 0 {
            self
        } else {
            self.after(happenings.drop_last()).on(happenings.last())
        }
    }
}

/// Whatever is shown for a listing, no name in it is empty.
pub proof fn lemma_shown_not_empty(read: Option<Seq<Option<Seq<char>>>>)
    ensures
        forall|i: int| 0 <= i < shown(read).len() ==> #[trigger] shown(read)[i].len() > 0,
{
    reveal_strlit("No such directory");
    if let Some(entries) = read {
        lemma_names_in_not_empty(entries);
    }
}

/// The browser starts in a valid state: in particular the highlight of the
/// file list is on a listed file or absent.
pub proof fn lemma_start_is_valid(dir: PathView, read: Option<Seq<Option<Seq<char>>>>)
    requires
        dir.wf(),
    ensures
        AppView::start(dir, read).wf(),
        AppView::start(dir, read).mode == AppMode::Files,
{
    lemma_shown_not_empty(read);
}

/// Nothing that happens takes the browser out of the valid states: after any
/// key, answer or listing, each highlight is absent or on an entry of its
/// list, the cursor is within the prompt, the bookmark is whole or unset, and
/// the menu is what it was.
pub proof fn lemma_step_keeps_valid(state: AppView, happening: Happening)
    requires
        state.wf(),
    ensures
        state.on(happening).wf(),
{
    match happening {
        Happening::Event(event) => {
            if let Some(code) = event.pressed() {
                if let Some(name) = state.files.chosen() {
                    lemma_resolve(state.dir, name);
                }
            }
        },
        Happening::Reply(reply) => {},
        Happening::Listing(read) => {
            lemma_shown_not_empty(read);
        },
    }
}

/// The same for any number of things that happen, in any order.
pub proof fn lemma_always_valid(state: AppView, happenings: Seq<Happening>)
    requires
        state.wf(),
    ensures
        state.after(happenings).wf(),
    decreases happenings.len(),
{
    if happenings.len() > 0 {
        lemma_always_valid(state, happenings.drop_last());
        lemma_step_keeps_valid(state.after(happenings.drop_last()), happenings.last());
    }
}

/// One thing that happens leaves the browser in the mode `Exit` exactly if it
/// was there before or the thing is a press of `q`.
pub proof fn lemma_step_leaves_by_quit(state: AppView, happening: Happening)
    ensures
        state.on(happening).mode == AppMode::Exit <==> state.mode == AppMode::Exit
            || happening.quits(),
{
}

/// However long the browser is used, it is in the mode `Exit` exactly if it
/// started there or `q` was pressed at some point: no other key, no answer
/// of the filesystem and no listing leads there, and nothing leads back.
pub proof fn lemma_leaves_only_by_quit(state: AppView, happenings: Seq<Happening>)
    ensures
        state.after(happenings).mode == AppMode::Exit <==> state.mode == AppMode::Exit || exists|
            i: int,
        |
            0 <= i < happenings.len() && (#[trigger] happenings[i]).quits(),
    decreases happenings.len(),
{
    if happenings.len() > 0 {
        let earlier = happenings.drop_last();
        lemma_leaves_only_by_quit(state, earlier);
        lemma_step_leaves_by_quit(state.after(earlier), happenings.last());
        if exists|i: int| 0 <= i < happenings.len() && (#[trigger] happenings[i]).quits() {
            let i = choose|i: int| 0 <= i < happenings.len() && (#[trigger] happenings[i]).quits();
            if i < earlier.len() {
                assert(earlier[i].quits());
            }
        }
    }
}

/// Once the browser has been left, no key and no listing changes anything.
pub proof fn lemma_left_is_final(state: AppView, event: Event, read: Option<Seq<Option<Seq<char>>>>)
    requires
        state.mode == AppMode::Exit,
    ensures
        state.on_event(event) == state.idle(),
        state.on_listing(read) == state,
{
}

} // verus!
