use vstd::prelude::*;

verus! {

/// The intent events of the configuration screen.
#[derive(Debug, Clone)]
pub enum MenuMessage {
    IncrementUndercover,
    DecrementUndercover,
    EnableWhite(bool),
    AddName,
    RemoveName(usize),
    EditIndex(usize),
    EditName(String),
    Done,
}

/// The pre-game configuration: role quotas, the name list, and which name is
/// currently being edited.
pub struct Menu {
    pub citizen: usize,
    pub undercover: usize,
    pub white: bool,
    pub names: Vec<String>,
    pub index: usize,
}

/// Effect of raising the undercover quota by moving one citizen seat.
pub open spec fn spec_add_undercover(m: Menu) -> Menu {
    if m.citizen > 2 {
        Menu { citizen: (m.citizen - 1) as usize, undercover: (m.undercover + 1) as usize, ..m }
    } else {
        m
    }
}

/// Effect of lowering the undercover quota back into a citizen seat.
pub open spec fn spec_remove_undercover(m: Menu) -> Menu {
    if m.undercover > 1 {
        Menu { citizen: (m.citizen + 1) as usize, undercover: (m.undercover - 1) as usize, ..m }
    } else {
        m
    }
}

/// Effect of granting the White seat out of a citizen seat.
pub open spec fn spec_enable_white(m: Menu) -> Menu {
    if m.citizen > 2 && !m.white {
        Menu { citizen: (m.citizen - 1) as usize, white: true, ..m }
    } else {
        m
    }
}

/// Effect of withdrawing the White seat back into a citizen seat.
pub open spec fn spec_disable_white(m: Menu) -> Menu {
    if m.white {
        Menu { citizen: (m.citizen + 1) as usize, white: false, ..m }
    } else {
        m
    }
}

/// Effect of pointing the name editor at entry `i`.
pub open spec fn spec_edit_index(m: Menu, i: usize) -> Menu {
    Menu { index: i, ..m }
}

/// The transition relation of the configuration screen.
pub open spec fn menu_updated(pre: Menu, post: Menu, m: MenuMessage) -> bool {
    match m {
        MenuMessage::IncrementUndercover => post == spec_add_undercover(pre),
        MenuMessage::DecrementUndercover => post == spec_remove_undercover(pre),
        MenuMessage::EnableWhite(enable) => post == (if enable {
            spec_enable_white(pre)
        } else {
            spec_disable_white(pre)
        }),
        MenuMessage::AddName => {
            &&& post.citizen == pre.citizen + 1
            &&& post.undercover == pre.undercover
            &&& post.white == pre.white
            &&& post.index == pre.names.len()
            &&& post.names@.len() == pre.names@.len() + 1
            &&& (forall|j: int| 0 <= j < pre.names@.len() ==> post.names@[j] == pre.names@[j])
            &&& post.names@.last()@ == "New Player"@
        },
        MenuMessage::RemoveName(i) => {
            if pre.names.len() > 3 && i < pre.names.len() {
                &&& post.names@ == pre.names@.remove(i as int)
                &&& post.index == pre.index
                &&& post.white == pre.white
                &&& (if pre.citizen < 2 {
                    post.citizen == pre.citizen && post.undercover == pre.undercover - 1
                } else {
                    post.citizen == pre.citizen - 1 && post.undercover == pre.undercover
                })
            } else {
                post == pre
            }
        },
        MenuMessage::EditIndex(i) => post == spec_edit_index(pre, i),
        MenuMessage::EditName(name) => {
            if pre.index < pre.names.len() {
                &&& post.names@ == pre.names@.update(pre.index as int, name)
                &&& post.citizen == pre.citizen
                &&& post.undercover == pre.undercover
                &&& post.white == pre.white
                &&& post.index == pre.index
            } else {
                post == pre
            }
        },
        MenuMessage::Done => post == pre,
    }
}

impl Menu {
    /// The configuration invariant: the quotas cover the name list exactly and
    /// at least one undercover seat is requested.
    pub open spec fn wf(&self) -> bool {
        &&& self.citizen + self.undercover + (if self.white {
            1int
        } else {
            0int
        }) == self.names.len()
        &&& self.undercover >= 1
    }

    /// A fresh configuration over the given names: one undercover seat, no
    /// White seat, and the rest citizens.
    pub fn new(names: Vec<String>) -> (r: Menu)
        requires
            names@.len() >= 1,
        ensures
            r.wf(),
            r.citizen == names@.len() - 1,
            r.undercover == 1,
            !r.white,
            r.names == names,
            r.index == 0,
    {
        let citizen = names.len() - 1;
        Menu { citizen, undercover: 1, white: false, names, index: 0 }
    }

    pub fn citizen(&self) -> (r: usize)
        ensures
            r == self.citizen,
    {
        self.citizen
    }

    pub fn undercover(&self) -> (r: usize)
        ensures
            r == self.undercover,
    {
        self.undercover
    }

    pub fn white(&self) -> (r: bool)
        ensures
            r == self.white,
    {
        self.white
    }

    pub fn names(&self) -> (r: &Vec<String>)
        ensures
            r == self.names,
    {
        &self.names
    }

    fn add_undercover(&mut self)
        requires
            old(self).wf(),
        ensures
            *final(self) == spec_add_undercover(*old(self)),
    {
        if self.citizen > 2 {
            self.undercover = self.undercover + 1;
            self.citizen = self.citizen - 1;
        }
    }

    fn remove_undercover(&mut self)
        requires
            old(self).wf(),
        ensures
            *final(self) == spec_remove_undercover(*old(self)),
    {
        if self.undercover > 1 {
            self.undercover = self.undercover - 1;
            self.citizen = self.citizen + 1;
        }
    }

    fn enable_white(&mut self)
        ensures
            *final(self) == spec_enable_white(*old(self)),
    {
        if self.citizen > 2 && !self.white {
            self.citizen = self.citizen - 1;
            self.white = true;
        }
    }

    fn disable_white(&mut self)
        requires
            old(self).wf(),
        ensures
            *final(self) == spec_disable_white(*old(self)),
    {
        if self.white {
            self.citizen = self.citizen + 1;
            self.white = false;
        }
    }

    fn add_name(&mut self)
        requires
            old(self).wf(),
        ensures
            final(self).wf(),
            menu_updated(*old(self), *final(self), MenuMessage::AddName),
    {
        self.index = self.names.len();
        self.names.push("New Player".to_owned());
        self.citizen = self.citizen + 1;
    }

    fn remove_name(&mut self, i: usize)
        requires
            old(self).wf(),
        ensures
            final(self).wf(),
            menu_updated(*old(self), *final(self), MenuMessage::RemoveName(i)),
    {
        if self.names.len() > 3 && i < self.names.len() {
            self.names.remove(i);
            if self.citizen < 2 {
                self.undercover = self.undercover - 1;
            } else {
                self.citizen = self.citizen - 1;
            }
        }
    }

    fn edit_name(&mut self, name: String)
        ensures
            menu_updated(*old(self), *final(self), MenuMessage::EditName(name)),
    {
        if self.index < self.names.len() {
            self.names[self.index] = name;
        }
    }

    /// Applies one configuration event. Every event keeps the quotas matched
    /// to the name list; an event whose guard fails is ignored.
    pub fn update(&mut self, message: MenuMessage)
        requires
            old(self).wf(),
        ensures
            final(self).wf(),
            menu_updated(*old(self), *final(self), message),
    {
        match message {
            MenuMessage::IncrementUndercover => {
                self.add_undercover();
            },
            MenuMessage::DecrementUndercover => {
                self.remove_undercover();
            },
            MenuMessage::EnableWhite(enable) => {
                if enable {
                    self.enable_white();
                } else {
                    self.disable_white();
                }
            },
            MenuMessage::AddName => {
                self.add_name();
            },
            MenuMessage::RemoveName(index) => {
                self.remove_name(index);
            },
            MenuMessage::EditIndex(index) => {
                self.index = index;
            },
            MenuMessage::EditName(name) => {
                self.edit_name(name);
            },
            MenuMessage::Done => {},
        }
    }
}

} // verus!
