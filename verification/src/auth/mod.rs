//! Permission levels and what is built on them.

pub mod credentials;
pub mod guards;
pub mod service;

pub use credentials::Hasher;
pub use guards::Guard;
pub use service::AuthError;

use vstd::prelude::*;
use crate::text::str_eq;
use std::cmp::Ordering;
use vstd::std_specs::cmp::PartialOrdSpecImpl;

verus! {

/// The permission level of an account. The levels are totally ordered:
/// `User` is below `Moderator`, which is below `Admin`.
#[derive(Clone, Copy, Debug, PartialEq, Eq, Structural, Ord, Hash)]
pub enum Permissions {
    User,
    Moderator,
    Admin,
}

/// The message of a failed [`Permissions::parse`].
pub const NOT_A_PERMISSION: &'static str = "Given string does not represent application's permission.";

impl Permissions {
    /// The position of the level in the order, from 0 for `User`.
    pub open spec fn level(self) -> int {
        match self {
            Permissions::User => 0,
            Permissions::Moderator => 1,
            Permissions::Admin => 2,
        }
    }

    /// The textual form of the level, as it is stored and shown.
    pub open spec fn text(self) -> Seq<char> {
        match self {
            Permissions::User => "User"@,
            Permissions::Moderator => "Moderator"@,
            Permissions::Admin => "Admin"@,
        }
    }

    /// The level that a text stands for, if it stands for one.
    pub open spec fn parse_spec(s: Seq<char>) -> Option<Permissions> {
        if s == "User"@ {
            Some(Permissions::User)
        } else if s == "Admin"@ {
            Some(Permissions::Admin)
        } else if s == "Moderator"@ {
            Some(Permissions::Moderator)
        } else {
            None
        }
    }

    /// Whether an account of level `self` may do what asks for `required`.
    pub open spec fn satisfies(self, required: Permissions) -> bool {
        self.level() >= required.level()
    }

    /// The position of the level in the order.
    pub fn rank(&self) -> (r: u8)
        ensures
            r == self.level(),
    {
        match self {
            Permissions::User => 0,
            Permissions::Moderator => 1,
            Permissions::Admin => 2,
        }
    }

    /// The textual form of the level.
    pub fn to_string(&self) -> (s: String)
        ensures
            s@ == self.text(),
    {
        match self {
            Permissions::User => "User".to_owned(),
            Permissions::Admin => "Admin".to_owned(),
            Permissions::Moderator => "Moderator".to_owned(),
        }
    }

    /// Reads a level from its textual form. Exactly the three texts that
    /// [`Permissions::to_string`] produces are accepted.
    pub fn parse(s: &str) -> (r: Result<Permissions, &'static str>)
        ensures
            match Permissions::parse_spec(s@) {
                Some(p) => r == Ok::<Permissions, &'static str>(p),
                None => r == Err::<Permissions, &'static str>(NOT_A_PERMISSION),
            },
    {
        if str_eq(s, "User") {
            Ok(Permissions::User)
        } else if str_eq(s, "Admin") {
            Ok(Permissions::Admin)
        } else if str_eq(s, "Moderator") {
            Ok(Permissions::Moderator)
        } else {
            Err(NOT_A_PERMISSION)
        }
    }

    /// Whether an account of level `self` may do what asks for `required`.
    pub fn meets(&self, required: &Permissions) -> (r: bool)
        ensures
            r == self.satisfies(*required),
    {
        self.rank() >= required.rank()
    }
}

impl std::str::FromStr for Permissions {
    type Err = &'static str;

    fn from_str(s: &str) -> (r: Result<Self, Self::Err>)
        ensures
            match Permissions::parse_spec(s@) {
                Some(p) => r == Ok::<Permissions, &'static str>(p),
                None => r == Err::<Permissions, &'static str>(NOT_A_PERMISSION),
            },
    {
        Permissions::parse(s)
    }
}

impl PartialOrd for Permissions {
    fn partial_cmp(&self, other: &Permissions) -> (r: Option<Ordering>) {
        let a: u8 = self.rank();
        let b: u8 = other.rank();
        if a < b {
            Some(Ordering::Less)
        } else if a == b {
            Some(Ordering::Equal)
        } else {
            Some(Ordering::Greater)
        }
    }
}

impl PartialOrdSpecImpl for Permissions {
    open spec fn obeys_partial_cmp_spec() -> bool {
        true
    }

    open spec fn partial_cmp_spec(&self, other: &Permissions) -> Option<Ordering> {
        if self.level() < other.level() {
            Some(Ordering::Less)
        } else if self.level() == other.level() {
            Some(Ordering::Equal)
        } else {
            Some(Ordering::Greater)
        }
    }
}

/// The three textual forms are pairwise different.
pub proof fn texts_are_distinct()
    ensures
        "User"@ != "Admin"@,
        "User"@ != "Moderator"@,
        "Admin"@ != "Moderator"@,
{
    reveal_strlit("User");
    reveal_strlit("Admin");
    reveal_strlit("Moderator");
    assert("User"@.len() == 4);
    assert("Admin"@.len() == 5);
    assert("Moderator"@.len() == 9);
}

/// Reading the textual form of a level gives the level back.
pub proof fn parse_inverts_text(v: Permissions)
    ensures
        Permissions::parse_spec(v.text()) == Some(v),
{
    texts_are_distinct();
}

/// A text is read as a level only if it is the textual form of that level:
/// every other text is refused.
pub proof fn parse_accepts_only_texts(s: Seq<char>)
    ensures
        Permissions::parse_spec(s) matches Some(v) ==> s == v.text(),
        s != "User"@ && s != "Moderator"@ && s != "Admin"@ ==> Permissions::parse_spec(s) is None,
{
}

/// The levels stand in the order `User`, `Moderator`, `Admin`.
pub proof fn levels_are_ordered()
    ensures
        Permissions::User.level() < Permissions::Moderator.level(),
        Permissions::Moderator.level() < Permissions::Admin.level(),
{
}

/// `Admin` satisfies every requirement, and `User` satisfies the requirement
/// `User` and no other.
pub proof fn admin_satisfies_all_user_only_user(required: Permissions)
    ensures
        Permissions::Admin.satisfies(required),
        Permissions::User.satisfies(required) <==> required == Permissions::User,
{
}

} // verus!
