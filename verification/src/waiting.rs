//! The decisions of a borrow that waits. Waiting itself, and knowing which
//! thread is asking, are the caller's part: it asks the cell, hands the answer
//! here together with what its own thread holds of that cell, and does what
//! comes back.

use crate::errors::CellError;
use vstd::prelude::*;

verus! {

/// What one thread holds of one cell: how many shared borrows, and whether
/// the exclusive one.
#[derive(Clone, Copy, Debug, PartialEq, Eq, Structural)]
pub struct Held {
    pub shared: usize,
    pub exclusive: bool,
}

/// What to do after one request to the cell.
#[derive(Debug)]
pub enum Attempt<G> {
    /// The cell lent the borrow: hand it out.
    Granted(G),
    /// Waiting would never end, because the asking thread's own borrow stands
    /// in the way or because the lock is poisoned: report the conflict.
    Conflict(CellError),
    /// Another thread's borrow stands in the way: wait and ask again.
    Wait,
}

impl Held {
    /// Whether the thread's own borrows rule out a shared borrow: its
    /// exclusive borrow does.
    pub open spec fn bars_shared(self) -> bool {
        self.exclusive
    }

    /// Whether the thread's own borrows rule out an exclusive borrow: any
    /// borrow of its own does.
    pub open spec fn bars_exclusive(self) -> bool {
        self.exclusive || self.shared > 0
    }

    /// What follows from the cell's answer to a request for a shared borrow,
    /// and what the thread holds afterwards. A borrow that was lent is handed
    /// out and counted. Where none was lent, the thread is told of the
    /// conflict if its own exclusive borrow bars the request or the lock is
    /// poisoned, and else to wait; it holds what it held.
    pub open spec fn after_shared_request<G>(self, lent: Option<G>, poisoned: bool) -> (
        Attempt<G>,
        Held,
    ) {
        match lent {
            Some(guard) => (
                Attempt::Granted(guard),
                Held { shared: (self.shared + 1) as usize, exclusive: self.exclusive },
            ),
            None => (
                if self.bars_shared() || poisoned {
                    Attempt::Conflict(CellError {  })
                } else {
                    Attempt::Wait
                },
                self,
            ),
        }
    }

    /// What follows from the cell's answer to a request for an exclusive
    /// borrow, and what the thread holds afterwards. A borrow that was lent
    /// is handed out and recorded. Where none was lent, the thread is told of
    /// the conflict if any borrow of its own bars the request or the lock is
    /// poisoned, and else to wait; it holds what it held.
    pub open spec fn after_exclusive_request<G>(self, lent: Option<G>, poisoned: bool) -> (
        Attempt<G>,
        Held,
    ) {
        match lent {
            Some(guard) => (
                Attempt::Granted(guard),
                Held { shared: self.shared, exclusive: true },
            ),
            None => (
                if self.bars_exclusive() || poisoned {
                    Attempt::Conflict(CellError {  })
                } else {
                    Attempt::Wait
                },
                self,
            ),
        }
    }

    /// A thread that holds nothing of the cell.
    pub fn none() -> (held: Held)
        ensures
            held == (Held { shared: 0, exclusive: false }),
    {
        Held { shared: 0, exclusive: false }
    }

    /// One step of a shared borrow that waits: what to do with the cell's
    /// answer, and what the thread holds afterwards.
    pub fn shared_step<G>(self, lent: Option<G>, poisoned: bool) -> (next: (Attempt<G>, Held))
        requires
            self.shared < usize::MAX,
        ensures
            next == self.after_shared_request(lent, poisoned),
    {
        match lent {
            Some(guard) => (
                Attempt::Granted(guard),
                Held { shared: self.shared + 1, exclusive: self.exclusive },
            ),
            None => if self.exclusive || poisoned {
                (Attempt::Conflict(CellError {  }), self)
            } else {
                (Attempt::Wait, self)
            },
        }
    }

    /// One step of an exclusive borrow that waits: what to do with the cell's
    /// answer, and what the thread holds afterwards.
    pub fn exclusive_step<G>(self, lent: Option<G>, poisoned: bool) -> (next: (Attempt<G>, Held))
        ensures
            next == self.after_exclusive_request(lent, poisoned),
    {
        match lent {
            Some(guard) => (
                Attempt::Granted(guard),
                Held { shared: self.shared, exclusive: true },
            ),
            None => if self.exclusive || self.shared > 0 || poisoned {
                (Attempt::Conflict(CellError {  }), self)
            } else {
                (Attempt::Wait, self)
            },
        }
    }

    /// The holdings after the thread gave one shared borrow back; nothing
    /// changes where it held none.
    pub fn without_shared(self) -> (held: Held)
        ensures
            held == (Held {
                shared: if self.shared > 0 {
                    (self.shared - 1) as usize
                } else {
                    0
                },
                exclusive: self.exclusive,
            }),
    {
        if self.shared > 0 {
            Held { shared: self.shared - 1, exclusive: self.exclusive }
        } else {
            self
        }
    }

    /// The holdings after the thread gave the exclusive borrow back.
    pub fn without_exclusive(self) -> (held: Held)
        ensures
            held == (Held { shared: self.shared, exclusive: false }),
    {
        Held { shared: self.shared, exclusive: false }
    }
}

/// A thread that holds no borrow of a cell whose lock is sound is never told
/// of a conflict: the cell's answer is handed out, or the thread is told to
/// wait. Whatever a thread holds, a borrow that the cell lent is handed out.
/// A thread's own exclusive borrow, or a poisoned lock, never makes it wait.
pub proof fn lemma_free_thread_gets_no_conflict<G>(held: Held, lent: Option<G>, poisoned: bool)
    ensures
        held.shared == 0 && !held.exclusive && !poisoned ==> !(held.after_shared_request(
            lent,
            poisoned,
        ).0 is Conflict) && !(held.after_exclusive_request(lent, poisoned).0 is Conflict),
        lent matches Some(guard) ==> held.after_shared_request(lent, poisoned).0
            == Attempt::Granted(guard) && held.after_exclusive_request(lent, poisoned).0
            == Attempt::Granted(guard),
        held.exclusive || poisoned ==> !(held.after_shared_request(lent, poisoned).0 is Wait)
            && !(held.after_exclusive_request(lent, poisoned).0 is Wait),
{
}

/// Giving a borrow back undoes what its grant recorded.
pub proof fn lemma_release_undoes_grant<G>(held: Held, guard: G, poisoned: bool)
    requires
        held.shared < usize::MAX,
    ensures
        ({
            let after = held.after_shared_request(Some(guard), poisoned).1;
            (Held {
                shared: if after.shared > 0 {
                    (after.shared - 1) as usize
                } else {
                    0
                },
                exclusive: after.exclusive,
            }) == held
        }),
        !held.exclusive ==> ({
            let after = held.after_exclusive_request(Some(guard), poisoned).1;
            (Held { shared: after.shared, exclusive: false }) == held
        }),
{
}

} // verus!
