//! The register holding "the current session".
//!
//! The register is replaced as a whole on every publication and hands
//! whole values back: a reader obtains one complete published session,
//! never a mix of fields from two publications. The register keeps a
//! ghost history of everything published so that this can be stated.

use vstd::prelude::*;

use crate::token::Token;

verus! {

/// A singly-writable register of the current session.
pub struct SessionRegistry {
    slot: Option<Token>,
    history: Ghost<Seq<Token>>,
}

impl Clone for SessionRegistry {
    /// A snapshot of the register, for publication schemes that swap a
    /// whole immutable register rather than changing one in place.
    fn clone(&self) -> (r: Self)
        ensures
            r.published() == self.published(),
            r.current_spec() == self.current_spec(),
    {
        SessionRegistry {
            slot: match &self.slot {
                Some(t) => Some(t.clone()),
                None => None,
            },
            history: Ghost(self.history@),
        }
    }
}

impl SessionRegistry {
    /// Every session published so far, oldest first.
    pub closed spec fn published(&self) -> Seq<Token> {
        self.history@
    }

    /// The session a read observes, if one has been published.
    pub closed spec fn current_spec(&self) -> Option<Token> {
        self.slot
    }

    /// The register only ever holds a value that was published.
    pub open spec fn wf(&self) -> bool {
        match self.current_spec() {
            Some(t) => self.published().contains(t),
            None => true,
        }
    }

    /// An empty register: nothing published, nothing current.
    pub fn new() -> (r: Self)
        ensures
            r.wf(),
            r.published() == Seq::<Token>::empty(),
            r.current_spec() is None,
    {
        SessionRegistry { slot: None, history: Ghost(Seq::empty()) }
    }

    /// Replaces the current session with `t` as one unit.
    pub fn publish(&mut self, t: Token)
        requires
            old(self).wf(),
        ensures
            final(self).wf(),
            final(self).published() == old(self).published().push(t),
            final(self).current_spec() == Some(t),
    {
        let ghost h = self.history@;
        proof {
            assert(h.push(t)[h.len() as int] == t);
        }
        self.history = Ghost(h.push(t));
        self.slot = Some(t);
    }

    /// The latest published session, whole, or nothing before the first
    /// publication.
    pub fn current(&self) -> (r: Option<&Token>)
        requires
            self.wf(),
        ensures
            match r {
                Some(t) => Some(*t) == self.current_spec() && self.published().contains(*t),
                None => self.current_spec() is None,
            },
    {
        match &self.slot {
            Some(t) => Some(t),
            None => None,
        }
    }
}

/// Law: a read observes one complete previously-published session -- the
/// register never holds, and so never hands out, a value that is not in
/// its publication history.
pub proof fn lemma_current_is_published(r: &SessionRegistry)
    requires
        r.wf(),
    ensures
        match r.current_spec() {
            Some(t) => r.published().contains(t),
            None => true,
        },
{
}

} // verus!
