use crate::address::Address;
use vstd::prelude::*;

verus! {

/// Who authorizes a ledger operation.
#[derive(Clone, Copy, Debug)]
pub enum Authority {
    /// The caller, by its own signature.
    Caller,
    /// A program-derived address, signed for by the program.
    Program(Address),
}

/// A change to token balances, carried out by the external ledger.
#[derive(Clone, Copy, Debug)]
pub enum LedgerAction {
    /// Create the token mint `mint`, whose mint authority is `authority`.
    CreateMint { mint: Address, authority: Address },
    /// Mint `amount` tokens of `mint` into the balance `to`.
    MintTo { mint: Address, to: Address, amount: u64 },
    /// Move `amount` tokens of `mint` from the balance `from` to the balance `to`.
    Transfer { mint: Address, from: Address, to: Address, amount: u64 },
}

/// One ledger operation of an operation's plan: the action, who authorizes
/// it, and the error that the whole operation ends with if the ledger
/// refuses it.
#[derive(Debug)]
pub struct LedgerOp<E> {
    pub action: LedgerAction,
    pub authority: Authority,
    pub on_failure: E,
}

/// What a mint issued: the amount minted and the collateral charged for it.
#[derive(Clone, Copy, Debug, PartialEq, Eq, Structural)]
pub struct Minted {
    pub amount: u64,
    pub collateral: u64,
}

/// The outcome of an accepted operation: a value, and the ledger operations
/// to perform in order, all in one transaction. If the ledger refuses one,
/// the transaction is abandoned with that operation's `on_failure` and the
/// registry is left as it was before the operation.
#[derive(Debug)]
pub struct Receipt<T, E> {
    pub value: T,
    pub ops: Vec<LedgerOp<E>>,
}

/// Concludes an operation once its plan has run, all or nothing. `before`
/// and `after` are the registry before and after the operation; `refused`
/// is the index of the ledger operation that the ledger refused, if any.
/// With none refused, the operation's changes are kept and its value
/// returned; otherwise the registry stays as it was before, and the error is
/// the refused operation's.
pub fn conclude<S, T, E: Copy>(before: S, after: S, receipt: Receipt<T, E>, refused: Option<usize>) -> (r: (
    S,
    Result<T, E>,
))
    requires
        refused matches Some(i) ==> i < receipt.ops@.len(),
    ensures
        match refused {
            None => r.0 == after && r.1 == Ok::<T, E>(receipt.value),
            Some(i) => r.0 == before && r.1 == Err::<T, E>(receipt.ops@[i as int].on_failure),
        },
{
    match refused {
        None => (after, Ok(receipt.value)),
        Some(i) => {
            let failure = receipt.ops[i].on_failure;
            (before, Err(failure))
        },
    }
}

pub open spec fn receipt_view<T, E>(r: Result<Receipt<T, E>, E>) -> Result<(T, Seq<LedgerOp<E>>), E> {
    match r {
        Ok(rc) => Ok((rc.value, rc.ops@)),
        Err(e) => Err(e),
    }
}

} // verus!
