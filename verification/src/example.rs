//! The worked example that ships with the generator: a record called
//! `Hello`, together with the constructor and builder methods that the
//! generator produces for its declaration, written out and verified.

use vstd::prelude::*;
use vstd::string::StringExecFns;

verus! {

/// The default value of the `super_next_next_world` field of [`Hello`].
pub fn say() -> (r: Option<u32>)
    ensures
        r == Some(42u32),
{
    Some(42)
}

/// The example record.  Its declaration carries a value attribute on
/// `universe`, `next_next_world`, `super_next_next_world` and
/// `super_super_next_next_world`, and a required attribute on
/// `next_universe`; the constructor and builder methods below are what
/// the generator emits for it.
pub struct Hello {
    pub world: u32,
    pub universe: u32,
    pub next_next_world: String,
    pub next_world: Option<u32>,
    pub next_universe: Option<u32>,
    pub super_next_next_world: Option<u32>,
    pub super_super_next_next_world: Option<u32>,
}

impl Hello {
    /// The generated constructor: the plain field `world` and the
    /// required optional field `next_universe` are parameters; every
    /// other field takes its declared default.
    pub fn new(world: u32, next_universe: u32) -> (r: Hello)
        ensures
            r.world == world,
            r.universe == 34u32,
            r.next_next_world@ == "HELLO"@,
            r.next_world is None,
            r.next_universe == Some(next_universe),
            r.super_next_next_world == Some(42u32),
            r.super_super_next_next_world == Some(46u32),
    {
        Hello {
            world,
            universe: 34,
            next_next_world: String::from_str("HELLO"),
            next_world: None,
            next_universe: Some(next_universe),
            super_next_next_world: say(),
            super_super_next_next_world: Some(46),
        }
    }

    /// The generated builder method for the value-supplied plain field
    /// `universe`: stores the value itself.
    pub fn with_universe(self, value: u32) -> (r: Hello)
        ensures
            r == (Hello { universe: value, ..self }),
    {
        Hello { universe: value, ..self }
    }

    /// The generated builder method for the value-supplied plain field
    /// `next_next_world`: stores the value itself.
    pub fn with_next_next_world(self, value: String) -> (r: Hello)
        ensures
            r == (Hello { next_next_world: value, ..self }),
    {
        Hello { next_next_world: value, ..self }
    }

    /// The generated builder method for the optional field `next_world`:
    /// stores the value, wrapped.
    pub fn with_next_world(self, value: u32) -> (r: Hello)
        ensures
            r == (Hello { next_world: Some(value), ..self }),
    {
        Hello { next_world: Some(value), ..self }
    }

    /// The generated builder method for the optional field
    /// `next_universe`: stores the value, wrapped.
    pub fn with_next_universe(self, value: u32) -> (r: Hello)
        ensures
            r == (Hello { next_universe: Some(value), ..self }),
    {
        Hello { next_universe: Some(value), ..self }
    }

    /// The generated builder method for the optional field
    /// `super_next_next_world`: stores the value, wrapped.
    pub fn with_super_next_next_world(self, value: u32) -> (r: Hello)
        ensures
            r == (Hello { super_next_next_world: Some(value), ..self }),
    {
        Hello { super_next_next_world: Some(value), ..self }
    }

    /// The generated builder method for the optional field
    /// `super_super_next_next_world`: stores the value, wrapped.
    pub fn with_super_super_next_next_world(self, value: u32) -> (r: Hello)
        ensures
            r == (Hello { super_super_next_next_world: Some(value), ..self }),
    {
        Hello { super_super_next_next_world: Some(value), ..self }
    }
}

} // verus!
