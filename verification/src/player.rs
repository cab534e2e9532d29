use vstd::prelude::*;

verus! {

/// The role that a player holds in a game.
#[derive(Debug, Clone, Copy, PartialEq, Eq, Structural)]
pub enum PlayerRole {
    Unassigned,
    Civilian,
    Mafia,
    Detective,
}

/// The name under which a role is shown to clients.
pub open spec fn role_name(role: PlayerRole) -> Seq<char> {
    match role {
        PlayerRole::Unassigned => "Unassigned"@,
        PlayerRole::Civilian => "Civilian"@,
        PlayerRole::Mafia => "Mafia"@,
        PlayerRole::Detective => "Detective"@,
    }
}

impl PlayerRole {
    /// The role's name, as clients see it.
    pub fn to_string(&self) -> (s: String)
        ensures
            s@ == role_name(*self),
    {
        match self {
            PlayerRole::Unassigned => String::from_str("Unassigned"),
            PlayerRole::Civilian => String::from_str("Civilian"),
            PlayerRole::Mafia => String::from_str("Mafia"),
            PlayerRole::Detective => String::from_str("Detective"),
        }
    }
}

/// A participant of the game: a name, a role and whether they are dead.
#[derive(Debug, Clone)]
pub struct Player {
    name: String,
    role: PlayerRole,
    is_ghost: bool,
}

/// What a player is, as a value.
pub struct PlayerView {
    pub name: Seq<char>,
    pub role: PlayerRole,
    pub is_ghost: bool,
}

impl View for Player {
    type V = PlayerView;

    closed spec fn view(&self) -> PlayerView {
        PlayerView { name: self.name@, role: self.role, is_ghost: self.is_ghost }
    }
}

/// Something done to a player.
pub enum PlayerOp {
    AssignRole(PlayerRole),
    Kill,
}

/// The player after `op`: a new role, or death; nothing else changes.
pub open spec fn after_op(p: PlayerView, op: PlayerOp) -> PlayerView {
    match op {
        PlayerOp::AssignRole(role) => PlayerView { role: role, ..p },
        PlayerOp::Kill => PlayerView { is_ghost: true, ..p },
    }
}

impl Player {
    /// A living player without a role.
    pub fn new(name: String) -> (p: Player)
        ensures
            p@ == (PlayerView { name: name@, role: PlayerRole::Unassigned, is_ghost: false }),
    {
        Player { name: name, role: PlayerRole::Unassigned, is_ghost: false }
    }

    /// Gives the player a role; nothing else changes.
    pub fn assign_role(&mut self, role: PlayerRole)
        ensures
            final(self)@ == after_op(old(self)@, PlayerOp::AssignRole(role)),
    {
        self.role = role;
    }

    pub fn role(&self) -> (r: &PlayerRole)
        ensures
            *r == self@.role,
    {
        return &self.role;
    }

    pub fn name(&self) -> (r: &String)
        ensures
            r@ == self@.name,
    {
        return &self.name;
    }

    pub fn is_ghost(&self) -> (b: bool)
        ensures
            b == self@.is_ghost,
    {
        return self.is_ghost;
    }

    /// Makes the player a ghost; name and role stay.
    pub fn kill(&mut self)
        ensures
            final(self)@ == after_op(old(self)@, PlayerOp::Kill),
    {
        self.is_ghost = true;
    }
}

} // verus!
