//! The fixed, closed set of classes whose animation sources the template
//! library is organised by.
//!
//! A class's display name doubles as its directory name inside the library:
//! both `to_string` and `as_ref` are proved to return the single spec-level
//! name, so the two can never drift apart.

use vstd::prelude::*;

verus! {

/// One of the nine classes the template library has a top-level folder for.
#[derive(Clone, Copy, PartialEq, Eq, Structural, Debug, Hash)]
pub enum Class {
    Scout,
    Soldier,
    Pyro,
    Demo,
    Heavy,
    Engineer,
    Medic,
    Sniper,
    Spy,
}

impl Class {
    /// The one name a class has, used both for display and as the path
    /// segment of its library folder.
    pub open spec fn dir_name(self) -> Seq<char> {
        match self {
            Class::Scout => "Scout"@,
            Class::Soldier => "Soldier"@,
            Class::Pyro => "Pyro"@,
            Class::Demo => "Demo"@,
            Class::Heavy => "Heavy"@,
            Class::Engineer => "Engineer"@,
            Class::Medic => "Medic"@,
            Class::Sniper => "Sniper"@,
            Class::Spy => "Spy"@,
        }
    }

    /// Display name of the class; identical to the directory name.
    pub fn to_string(&self) -> (r: String)
        ensures
            r@ == self.dir_name(),
    {
        match self {
            Class::Scout => "Scout".to_owned(),
            Class::Soldier => "Soldier".to_owned(),
            Class::Pyro => "Pyro".to_owned(),
            Class::Demo => "Demo".to_owned(),
            Class::Heavy => "Heavy".to_owned(),
            Class::Engineer => "Engineer".to_owned(),
            Class::Medic => "Medic".to_owned(),
            Class::Sniper => "Sniper".to_owned(),
            Class::Spy => "Spy".to_owned(),
        }
    }

    /// Path segment of the class's folder; identical to the display name.
    pub fn as_ref(&self) -> (r: &'static str)
        ensures
            r@ == self.dir_name(),
    {
        match self {
            Class::Scout => "Scout",
            Class::Soldier => "Soldier",
            Class::Pyro => "Pyro",
            Class::Demo => "Demo",
            Class::Heavy => "Heavy",
            Class::Engineer => "Engineer",
            Class::Medic => "Medic",
            Class::Sniper => "Sniper",
            Class::Spy => "Spy",
        }
    }
}

impl Default for Class {
    fn default() -> (r: Self)
        ensures
            r == Class::Scout,
    {
        Class::Scout
    }
}

/// The classes in their fixed declaration order; the catalog holds one entry
/// per class in exactly this order.
pub open spec fn class_order() -> Seq<Class> {
    seq![
        Class::Scout,
        Class::Soldier,
        Class::Pyro,
        Class::Demo,
        Class::Heavy,
        Class::Engineer,
        Class::Medic,
        Class::Sniper,
        Class::Spy,
    ]
}

/// The classes in their fixed declaration order, as a vector.
pub fn all_classes() -> (r: Vec<Class>)
    ensures
        r@ == class_order(),
{
    let classes: Vec<Class> = vec![
        Class::Scout,
        Class::Soldier,
        Class::Pyro,
        Class::Demo,
        Class::Heavy,
        Class::Engineer,
        Class::Medic,
        Class::Sniper,
        Class::Spy,
    ];
    proof {
        assert(classes@ =~= class_order());
    }
    classes
}

} // verus!
