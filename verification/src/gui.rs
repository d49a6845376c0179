//! The buttons of the immediate-mode interface: which one the pointer is
//! over (the hot item), which one was pressed (the active item), and which
//! one a release clicks.
//!
//! A button is known by its id. Where a button lies is the caller's: an
//! update takes, for each button in order, whether the pointer is over it.

use vstd::prelude::*;

verus! {

/// The id of a button.
pub type Id = u64;

/// What a button shows after an update.
#[derive(Clone, Copy, PartialEq, Eq, Structural, Debug)]
pub enum ButtonState {
    Idle,
    Hovered,
    Released,
}

/// A button: its id and what it shows.
#[derive(Clone, Copy, PartialEq, Eq, Structural, Debug)]
pub struct Button {
    pub id: Id,
    pub state: ButtonState,
}

/// The hot and the active item.
#[derive(Clone, Copy, PartialEq, Eq, Structural, Debug)]
pub struct Focus {
    pub hot: Option<Id>,
    pub active: Option<Id>,
}

/// What the pointer does in a frame.
#[derive(Clone, Copy, PartialEq, Eq, Structural, Debug)]
pub struct Pointer {
    /// The button of the pointer went down in this frame.
    pub pressed: bool,
    /// The button of the pointer came up in this frame.
    pub released: bool,
}

/// The buttons, in the order in which an update visits them, and the focus.
pub struct Gui {
    buttons: Vec<Button>,
    hot_item: Option<Id>,
    active_item: Option<Id>,
}

/// What a set of buttons is.
pub ghost struct GuiView {
    pub buttons: Seq<Button>,
    pub focus: Focus,
}

/// Whether the pointer is over button `i`; a list that is too short says no.
pub open spec fn over_at(over: Seq<bool>, i: int) -> bool {
    0 <= i < over.len() && over[i]
}

/// Whether an update visits a button: always without a restriction, else
/// only where the restriction names its id.
pub open spec fn eligible(id: Id, only: Option<Seq<Id>>) -> bool {
    match only {
        Some(ids) => ids.contains(id),
        None => true,
    }
}

/// Whether a button becomes the hot item: it is visited, the pointer is
/// over it, and no button before it is hot.
pub open spec fn takes_hot(f: Focus, id: Id, over: bool, only: Option<Seq<Id>>) -> bool {
    eligible(id, only) && over && f.hot.is_none()
}

/// The focus after one button of an update. A button that is not visited
/// loses the active item if it had it. A visited one becomes hot as
/// `takes_hot` says, and active if it is hot when the pointer goes down.
pub open spec fn focus_step(f: Focus, id: Id, over: bool, p: Pointer, only: Option<Seq<Id>>) -> Focus {
    if !eligible(id, only) {
        Focus {
            active: if f.active == Some(id) {
                None
            } else {
                f.active
            },
            ..f
        }
    } else {
        let hot = if takes_hot(f, id, over, only) {
            Some(id)
        } else {
            f.hot
        };
        Focus {
            hot,
            active: if p.pressed && hot == Some(id) {
                Some(id)
            } else {
                f.active
            },
        }
    }
}

/// What a button shows after its step of an update: released where the
/// pointer came up while the button is both hot and active, hovered where
/// it just became hot, else idle.
pub open spec fn state_step(f: Focus, id: Id, over: bool, p: Pointer, only: Option<Seq<Id>>) -> ButtonState {
    let after = focus_step(f, id, over, p, only);
    if !eligible(id, only) {
        ButtonState::Idle
    } else if p.released && after.hot == Some(id) && after.active == Some(id) {
        ButtonState::Released
    } else if takes_hot(f, id, over, only) {
        ButtonState::Hovered
    } else {
        ButtonState::Idle
    }
}

/// The focus after the first `n` buttons of an update, which starts with no
/// hot item.
pub open spec fn focus_after(
    buttons: Seq<Button>,
    active: Option<Id>,
    over: Seq<bool>,
    p: Pointer,
    only: Option<Seq<Id>>,
    n: int,
) -> Focus
    decreases n,
{
    if n <= 0 {
        Focus { hot: None, active }
    } else {
        focus_step(focus_after(buttons, active, over, p, only, n - 1), buttons[n - 1].id, over_at(over, n - 1), p, only)
    }
}

/// The buttons and the focus after an update.
pub open spec fn gui_after(g: GuiView, over: Seq<bool>, p: Pointer, only: Option<Seq<Id>>) -> GuiView {
    GuiView {
        buttons: Seq::new(
            g.buttons.len(),
            |i: int|
                Button {
                    id: g.buttons[i].id,
                    state: state_step(
                        focus_after(g.buttons, g.focus.active, over, p, only, i),
                        g.buttons[i].id,
                        over_at(over, i),
                        p,
                        only,
                    ),
                },
        ),
        focus: focus_after(g.buttons, g.focus.active, over, p, only, g.buttons.len() as int),
    }
}

/// Whether button `k` is the first that is visited with the pointer over it.
pub open spec fn first_under_pointer(buttons: Seq<Button>, over: Seq<bool>, only: Option<Seq<Id>>, k: int) -> bool {
    &&& 0 <= k < buttons.len()
    &&& eligible(buttons[k].id, only) && over_at(over, k)
    &&& forall|j: int| 0 <= j < k ==> !(eligible(#[trigger] buttons[j].id, only) && over_at(over, j))
}

/// Whether no button is visited with the pointer over it.
pub open spec fn none_under_pointer(buttons: Seq<Button>, over: Seq<bool>, only: Option<Seq<Id>>, n: int) -> bool {
    forall|j: int| 0 <= j < n ==> !(eligible(#[trigger] buttons[j].id, only) && over_at(over, j))
}

/// The first place of an id in a list of buttons.
pub open spec fn place_of(buttons: Seq<Button>, id: Id) -> Option<int>
    decreases buttons.len(),
{
    if buttons.len() == 0 {
        None
    } else {
        match place_of(buttons.drop_last(), id) {
            Some(i) => Some(i),
            None => if buttons.last().id == id {
                Some(buttons.len() - 1)
            } else {
                None
            },
        }
    }
}

/// The buttons after a button with this id was put in: in place of the
/// first with that id, or at the end.
pub open spec fn button_put(buttons: Seq<Button>, id: Id) -> Seq<Button> {
    match place_of(buttons, id) {
        Some(i) => buttons.update(i, Button { id, state: ButtonState::Idle }),
        None => buttons.push(Button { id, state: ButtonState::Idle }),
    }
}

/// The buttons after the first with this id was taken out.
pub open spec fn button_taken(buttons: Seq<Button>, id: Id) -> Seq<Button> {
    match place_of(buttons, id) {
        Some(i) => buttons.remove(i),
        None => buttons,
    }
}

/// The hot item of an update is the first button that is visited with the
/// pointer over it; with no such button there is none.
pub proof fn law_hot_is_first(
    buttons: Seq<Button>,
    active: Option<Id>,
    over: Seq<bool>,
    p: Pointer,
    only: Option<Seq<Id>>,
    n: int,
)
    requires
        0 <= n <= buttons.len(),
    ensures
        none_under_pointer(buttons, over, only, n) ==> focus_after(buttons, active, over, p, only, n).hot.is_none(),
        forall|k: int|
            0 <= k < n && #[trigger] first_under_pointer(buttons, over, only, k) ==> focus_after(
                buttons,
                active,
                over,
                p,
                only,
                n,
            ).hot == Some(buttons[k].id),
    decreases n,
{
    if n > 0 {
        law_hot_is_first(buttons, active, over, p, only, n - 1);
        let before = focus_after(buttons, active, over, p, only, n - 1);
        assert forall|k: int| 0 <= k < n && #[trigger] first_under_pointer(buttons, over, only, k) implies focus_after(
            buttons,
            active,
            over,
            p,
            only,
            n,
        ).hot == Some(buttons[k].id) by {
            if k == n - 1 {
                assert(none_under_pointer(buttons, over, only, n - 1));
            }
        }
    }
}

/// A button shows a release only where the pointer came up, the button is
/// visited, and it is both the hot and the active item.
pub proof fn law_release_needs_hot_and_active(f: Focus, id: Id, over: bool, p: Pointer, only: Option<Seq<Id>>)
    requires
        state_step(f, id, over, p, only) == ButtonState::Released,
    ensures
        p.released,
        eligible(id, only),
        focus_step(f, id, over, p, only).hot == Some(id),
        focus_step(f, id, over, p, only).active == Some(id),
{
}

fn names(only: &Vec<Id>, id: Id) -> (r: bool)
    ensures
        r == only@.contains(id),
{
    let mut i: usize = 0;
    while i < only.len()
        invariant
            i <= only@.len(),
            forall|j: int| 0 <= j < i ==> only@[j] != id,
        decreases only@.len() - i,
    {
        if only[i] == id {
            return true;
        }
        i += 1;
    }
    false
}

/// The restriction of an update, as a list of ids.
pub open spec fn only_ids(only: Option<&Vec<Id>>) -> Option<Seq<Id>> {
    match only {
        Some(ids) => Some(ids@),
        None => None,
    }
}

impl View for Gui {
    type V = GuiView;

    closed spec fn view(&self) -> GuiView {
        GuiView { buttons: self.buttons@, focus: Focus { hot: self.hot_item, active: self.active_item } }
    }
}

impl Gui {
    /// Idle buttons with these ids, in this order, and no focus.
    pub fn new(ids: &Vec<Id>) -> (r: Gui)
        ensures
            r@.focus == (Focus { hot: None, active: None }),
            r@.buttons == Seq::new(ids@.len(), |i: int| Button { id: ids@[i], state: ButtonState::Idle }),
    {
        let mut buttons: Vec<Button> = Vec::new();
        let mut i: usize = 0;
        while i < ids.len()
            invariant
                i <= ids@.len(),
                buttons@ == Seq::new(i as nat, |j: int| Button { id: ids@[j], state: ButtonState::Idle }),
            decreases ids@.len() - i,
        {
            buttons.push(Button { id: ids[i], state: ButtonState::Idle });
            assert(buttons@ =~= Seq::new((i + 1) as nat, |j: int| Button { id: ids@[j], state: ButtonState::Idle }));
            i += 1;
        }
        Gui { buttons, hot_item: None, active_item: None }
    }

    /// One update. `over[i]` says whether the pointer is over button `i`;
    /// `update_only`, where given, names the buttons that are visited.
    pub fn update(&mut self, over: &Vec<bool>, pointer: Pointer, update_only: Option<&Vec<Id>>)
        ensures
            final(self)@ == gui_after(old(self)@, over@, pointer, only_ids(update_only)),
    {
        let ghost start = self@;
        let ghost only = only_ids(update_only);
        self.hot_item = None;
        let mut i: usize = 0;
        while i < self.buttons.len()
            invariant
                i <= start.buttons.len(),
                only == only_ids(update_only),
                self.buttons@.len() == start.buttons.len(),
                forall|j: int| 0 <= j < start.buttons.len() ==> (#[trigger] self.buttons@[j]).id == start.buttons[j].id,
                forall|j: int| 0 <= j < i ==> #[trigger] self.buttons@[j] == gui_after(start, over@, pointer, only).buttons[j],
                (Focus { hot: self.hot_item, active: self.active_item }) == focus_after(
                    start.buttons,
                    start.focus.active,
                    over@,
                    pointer,
                    only,
                    i as int,
                ),
            decreases start.buttons.len() - i,
        {
            let id = self.buttons[i].id;
            let is_over = i < over.len() && over[i];
            let visited = match update_only {
                Some(ids) => names(ids, id),
                None => true,
            };
            let mut state = ButtonState::Idle;
            if !visited {
                if self.active_item == Some(id) {
                    self.active_item = None;
                }
            } else {
                if is_over && self.hot_item.is_none() {
                    state = ButtonState::Hovered;
                    self.hot_item = Some(id);
                }
                if pointer.pressed && self.hot_item == Some(id) {
                    self.active_item = Some(id);
                }
                if pointer.released && self.hot_item == Some(id) && self.active_item == Some(id) {
                    state = ButtonState::Released;
                }
            }
            self.buttons[i] = Button { id, state };
            i += 1;
        }
        assert(self@.buttons =~= gui_after(start, over@, pointer, only).buttons);
    }

    /// The first button with this id.
    pub fn button(&self, id: Id) -> (r: Option<&Button>)
        ensures
            match r {
                Some(b) => place_of(self@.buttons, id).is_some() && *b == self@.buttons[place_of(
                    self@.buttons,
                    id,
                ).unwrap()],
                None => place_of(self@.buttons, id).is_none(),
            },
    {
        match self.find(id) {
            Some(i) => Some(&self.buttons[i]),
            None => None,
        }
    }

    /// The place of the first button with this id.
    pub fn find(&self, id: Id) -> (r: Option<usize>)
        ensures
            match r {
                Some(i) => place_of(self@.buttons, id) == Some(i as int) && i < self@.buttons.len(),
                None => place_of(self@.buttons, id).is_none(),
            },
    {
        let mut found: Option<usize> = None;
        let mut i: usize = 0;
        while i < self.buttons.len()
            invariant
                i <= self.buttons@.len(),
                match found {
                    Some(k) => place_of(self.buttons@.take(i as int), id) == Some(k as int) && k < i,
                    None => place_of(self.buttons@.take(i as int), id).is_none(),
                },
            decreases self.buttons@.len() - i,
        {
            proof {
                assert(self.buttons@.take(i + 1).drop_last() =~= self.buttons@.take(i as int));
                assert(self.buttons@.take(i + 1).last() == self.buttons@[i as int]);
            }
            if found.is_none() && self.buttons[i].id == id {
                found = Some(i);
            }
            i += 1;
        }
        assert(self.buttons@.take(i as int) =~= self.buttons@);
        found
    }

    /// Puts an idle button with this id in: in place of the one with that
    /// id, or behind the last.
    pub fn insert(&mut self, id: Id)
        ensures
            final(self)@ == (GuiView { buttons: button_put(old(self)@.buttons, id), ..old(self)@ }),
    {
        match self.find(id) {
            Some(i) => {
                self.buttons[i] = Button { id, state: ButtonState::Idle };
            },
            None => {
                self.buttons.push(Button { id, state: ButtonState::Idle });
            },
        }
    }

    /// Takes the button with this id out, if there is one.
    pub fn remove(&mut self, id: Id)
        ensures
            final(self)@ == (GuiView { buttons: button_taken(old(self)@.buttons, id), ..old(self)@ }),
    {
        match self.find(id) {
            Some(i) => {
                self.buttons.remove(i);
            },
            None => {},
        }
    }

    /// Whether the button with this id shows a release.
    pub fn released(&self, id: Id) -> (r: bool)
        ensures
            r == match place_of(self@.buttons, id) {
                Some(i) => self@.buttons[i].state == ButtonState::Released,
                None => false,
            },
    {
        match self.button(id) {
            Some(b) => matches!(b.state, ButtonState::Released),
            None => false,
        }
    }
}

impl Button {
    /// Whether the button is idle.
    pub fn idle(&self) -> (r: bool)
        ensures
            r == (self.state == ButtonState::Idle),
    {
        matches!(self.state, ButtonState::Idle)
    }

    /// Whether the pointer is over the button.
    pub fn hovered(&self) -> (r: bool)
        ensures
            r == (self.state == ButtonState::Hovered),
    {
        matches!(self.state, ButtonState::Hovered)
    }

    /// Whether the button was clicked.
    pub fn released(&self) -> (r: bool)
        ensures
            r == (self.state == ButtonState::Released),
    {
        matches!(self.state, ButtonState::Released)
    }
}

} // verus!
