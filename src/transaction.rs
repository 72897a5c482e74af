use vstd::prelude::*;

verus! {

/// Where a transactional message stands in its two-phase commit.
#[derive(Debug, Clone, Copy, PartialEq, Eq, Structural)]
pub enum TransactionState {
    Started,
    Committed,
    RolledBack,
}

pub open spec fn is_terminal(s: TransactionState) -> bool {
    s != TransactionState::Started
}

/// The state that ending a transaction in state `s` leads to: a started one
/// commits or rolls back as asked; a finished one stays as it is.
pub open spec fn ended(s: TransactionState, commit: bool) -> TransactionState {
    if is_terminal(s) {
        s
    } else if commit {
        TransactionState::Committed
    } else {
        TransactionState::RolledBack
    }
}

/// One transactional message, from its send to the end of the transaction.
#[derive(Debug)]
pub struct Transaction {
    id: String,
    state: TransactionState,
}

impl Transaction {
    pub closed spec fn state(&self) -> TransactionState {
        self.state
    }

    pub closed spec fn transaction_id(&self) -> Seq<char> {
        self.id@
    }

    pub fn id(&self) -> (r: &str)
        ensures
            r@ == self.transaction_id(),
    {
        self.id.as_str()
    }

    pub fn new(id: String) -> (r: Self)
        ensures
            r.transaction_id() == id@,
            r.state() == TransactionState::Started,
    {
        Transaction { id, state: TransactionState::Started }
    }

    pub fn current(&self) -> (r: TransactionState)
        ensures
            r == self.state(),
    {
        self.state
    }

    /// Commits (`commit`) or rolls back a started transaction and returns
    /// true; a transaction already finished is left as it is, and false is
    /// returned.
    pub fn end(&mut self, commit: bool) -> (r: bool)
        ensures
            r == !is_terminal(old(self).state()),
            final(self).state() == ended(old(self).state(), commit),
            final(self).transaction_id() == old(self).transaction_id(),
    {
        match self.state {
            TransactionState::Started => {
                self.state = if commit {
                    TransactionState::Committed
                } else {
                    TransactionState::RolledBack
                };
                true
            },
            _ => false,
        }
    }
}

/// Ending a transaction is one-way: once committed or rolled back, no later
/// end changes its state.
pub proof fn lemma_terminal_is_final(s: TransactionState, first: bool, second: bool)
    ensures
        is_terminal(ended(s, first)),
        ended(ended(s, first), second) == ended(s, first),
{
}

} // verus!
