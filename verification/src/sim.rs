//! Scheduling decisions of the simulation front end: which kind of
//! executor task each incoming transaction is handed to. The execution
//! itself (thread pool, EVM state) is an external collaborator.

use vstd::prelude::*;

verus! {

/// The kinds of transactions the simulator receives.
#[derive(PartialEq, Eq, Structural, Clone, Copy, Debug)]
pub enum TransactionKind {
    /// A single transaction to simulate.
    Single,
    /// A whole bundle to simulate.
    Bundle,
}

/// The kinds of tasks the executor offers.
#[derive(PartialEq, Eq, Structural, Clone, Copy, Debug)]
pub enum TaskKind {
    /// An ordinary pooled task.
    Default,
    /// A task that may block its worker.
    Blocking,
}

/// The dispatch rule for incoming transactions: single transactions run
/// as ordinary tasks, bundles as blocking ones.
pub fn task_kind_for(tx: TransactionKind) -> (r: TaskKind)
    ensures
        r == (match tx {
            TransactionKind::Single => TaskKind::Default,
            TransactionKind::Bundle => TaskKind::Blocking,
        }),
{
    match tx {
        TransactionKind::Single => TaskKind::Default,
        TransactionKind::Bundle => TaskKind::Blocking,
    }
}

} // verus!
