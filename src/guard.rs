use vstd::prelude::*;

verus! {

/// A registration token whose only duty is to be dropped at the right time.
pub trait Token {}

impl<T> Token for T {}

/// One registration token kept alive by a guard.
pub struct Held {
    token: Box<dyn Token>,
}

/// Keeps the capture callbacks of a recording registered.
///
/// Each registration token handed to `keep_alive` is owned here; when the
/// guard is dropped, every token is dropped with it and capture ends.
pub struct MacroGuard {
    guards: Vec<Held>,
}

/// Appends one token to a list of held tokens.
fn push_held(v: Vec<Held>, h: Held) -> (r: Vec<Held>)
    ensures
        r@.len() == v@.len() + 1,
        r@.take(v@.len() as int) == v@,
{
    let mut v = v;
    let ghost before = v@;
    v.push(h);
    assert(v@.take(before.len() as int) =~= before);
    v
}

impl MacroGuard {
    /// The tokens the guard holds, oldest first.
    pub closed spec fn tokens(&self) -> Seq<Held> {
        self.guards@
    }

    /// A guard that holds nothing yet.
    pub fn new() -> (r: Self)
        ensures
            r.tokens().len() == 0,
    {
        MacroGuard { guards: Vec::new() }
    }

    /// Takes ownership of one more token and hands the guard back; the
    /// tokens it held before stay, in their order, and the new one follows.
    pub fn keep_alive<T: 'static>(self, value: T) -> (r: Self)
        ensures
            r.tokens().len() == self.tokens().len() + 1,
            r.tokens().take(self.tokens().len() as int) == self.tokens(),
    {
        let token: Box<dyn Token> = Box::new(value);
        let held = Held { token };
        let guards = push_held(self.guards, held);
        MacroGuard { guards }
    }

    /// How many tokens the guard holds.
    pub fn len(&self) -> (r: usize)
        ensures
            r == self.tokens().len(),
    {
        self.guards.len()
    }
}

} // verus!
