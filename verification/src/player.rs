use vstd::prelude::*;

verus! {

/// The three secret roles a seat can hold.
#[derive(Clone, Copy, PartialEq, Eq, Structural, Debug)]
pub enum Role {
    Citizen,
    Undercover,
    White,
}

/// The two error conditions of the engine: a rejected player name, and a
/// roster whose length does not match the requested role quotas.
#[derive(Clone, Copy, PartialEq, Eq, Structural, Debug)]
pub enum GameError {
    InvalidName,
    FatalConfig,
}

/// The display label of a role.
pub open spec fn spec_role_label(r: Role) -> Seq<char> {
    match r {
        Role::Citizen => "CIVIL"@,
        Role::Undercover => "UNDERCOVER"@,
        Role::White => "MR. WHITE"@,
    }
}

impl Role {
    /// Human-readable label of the role.
    pub fn to_string(&self) -> (r: String)
        ensures
            r@ == spec_role_label(*self),
    {
        match self {
            Role::Citizen => "CIVIL".to_owned(),
            Role::Undercover => "UNDERCOVER".to_owned(),
            Role::White => "MR. WHITE".to_owned(),
        }
    }
}

/// A player name is accepted when it is non-empty and its UTF-8 form takes at
/// most 30 bytes.
pub open spec fn valid_name(s: Seq<char>) -> bool {
    s.len() > 0 && vstd::utf8::encode_utf8(s).len() <= 30
}

/// One seat of the roster: an identity, a secret role, and an alive flag.
pub struct Player {
    pub name: String,
    pub role: Role,
    pub alive: bool,
}

impl Player {
    /// A player is well formed when its stored name is valid.
    pub open spec fn wf(&self) -> bool {
        valid_name(self.name@)
    }

    /// Whether the given name may be stored in a player.
    pub fn assert_name(name: &String) -> (r: bool)
        ensures
            r == valid_name(name@),
    {
        !name.as_str().is_empty() && name.as_str().as_bytes().len() <= 30
    }

    /// Creates a live player, rejecting an empty or over-long name.
    pub fn new(name: String, role: Role) -> (r: Result<Player, GameError>)
        ensures
            valid_name(name@) ==> (r matches Ok(p)
                && p.name@ == name@ && p.role == role && p.alive && p.wf()),
            !valid_name(name@) ==> r == Result::<Player, GameError>::Err(GameError::InvalidName),
    {
        if Self::assert_name(&name) {
            Ok(Player { name, role, alive: true })
        } else {
            Err(GameError::InvalidName)
        }
    }

    pub fn name(&self) -> (r: &String)
        ensures
            r@ == self.name@,
    {
        &self.name
    }

    /// Renames the player; an invalid name is rejected and the prior name kept.
    pub fn set_name(&mut self, name: String) -> (r: Result<(), GameError>)
        ensures
            final(self).role == old(self).role,
            final(self).alive == old(self).alive,
            valid_name(name@) ==> r is Ok && final(self).name@ == name@,
            !valid_name(name@) ==> r == Result::<(), GameError>::Err(GameError::InvalidName)
                && final(self).name@ == old(self).name@,
    {
        if Self::assert_name(&name) {
            self.name = name;
            Ok(())
        } else {
            Err(GameError::InvalidName)
        }
    }

    pub fn role(&self) -> (r: Role)
        ensures
            r == self.role,
    {
        self.role
    }

    pub fn set_role(&mut self, role: Role)
        ensures
            final(self).role == role,
            final(self).name == old(self).name,
            final(self).alive == old(self).alive,
    {
        self.role = role;
    }

    pub fn alive(&self) -> (r: bool)
        ensures
            r == self.alive,
    {
        self.alive
    }

    pub fn set_alive(&mut self, val: bool)
        ensures
            final(self).alive == val,
            final(self).name == old(self).name,
            final(self).role == old(self).role,
    {
        self.alive = val;
    }
}

} // verus!
