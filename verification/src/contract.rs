//! A minimal custodial vault built on the reentrancy guard. It keeps one
//! balance per account and offers two withdrawal paths: `withdraw_unsafe`
//! performs the external transfer before the balance update with no
//! protection — the classic re-entrancy window — while `withdraw` runs the
//! same critical section under the guard, so a transfer that calls back
//! into the vault is rejected with `ReentrantCall`.
//!
//! The host environment is kept at the boundary: the transaction's sender
//! and value arrive as plain arguments, and the external transfer is an
//! injected callable that receives the vault as the callee would observe
//! it mid-call and returns it together with a success flag.
//!
//! Nothing here aborts. A failed external transfer is surfaced as
//! [`VaultError::TransferFailed`] rather than a panic, so every exit path
//! of a guarded withdrawal — success, want of funds, failed transfer —
//! runs the guard's release, and no path can leave the guard stuck
//! `Active`.

use vstd::prelude::*;
use crate::reentrancy::active_guard;
use crate::reentrancy::lemma_active_guard_state;
use crate::reentrancy::GuardState;
use crate::reentrancy::ReentrancyGuard;
use crate::reentrancy::ReentrancyGuardError;

verus! {

/// The vault's error surface: a withdrawal may fail for want of funds, on
/// a failed external transfer (the fatal outcome of the transfer call,
/// surfaced as an error so that the guard is still released), or because
/// the guard rejected a re-entrant call.
#[derive(Clone, Copy, Debug, PartialEq, Eq, Structural)]
pub enum VaultError {
    InsufficientBalance,
    TransferFailed,
    ReentrancyGuardError(ReentrancyGuardError),
}

/// The balance recorded for `account` in a ledger of `(account, balance)`
/// entries: the first entry for the account, or zero when none is present.
spec fn ledger_balance_of(entries: Seq<(u64, u128)>, account: u64) -> u128
    decreases entries.len(),
{
    if entries.len() == 0 {
        0
    } else if entries[0].0 == account {
        entries[0].1
    } else {
        ledger_balance_of(entries.drop_first(), account)
    }
}

/// A custodial vault: a per-account balance ledger together with the
/// reentrancy guard that protects its withdrawal path. The guard flag is
/// never touched directly here; it is reached only through
/// [`ReentrancyGuard::non_reentrant`].
pub struct Vault {
    balances: Vec<(u64, u128)>,
    guard: ReentrancyGuard,
}

impl Vault {
    /// The balance the vault records for `account` (zero when the account
    /// has never been credited).
    pub closed spec fn balance_of(self, account: u64) -> u128 {
        ledger_balance_of(self.balances@, account)
    }

    /// The state of the vault's reentrancy guard.
    pub closed spec fn guard_state(self) -> GuardState {
        self.guard@
    }

    /// The vault as an external transfer observes it while a guarded
    /// withdrawal is in progress: the balances still undebited and the
    /// guard active. See [`lemma_during_withdraw`].
    pub closed spec fn during_withdraw(self) -> Vault {
        Vault { balances: self.balances, guard: active_guard() }
    }

    /// A fresh vault: every balance zero, the guard at rest.
    pub fn new() -> (v: Vault)
        ensures
            v.guard_state() == GuardState::Idle,
            forall|a: u64| v.balance_of(a) == 0,
    {
        Vault { balances: Vec::new(), guard: ReentrancyGuard::new() }
    }

    /// Initializes the vault, putting the guard at rest. Meant to run once,
    /// at construction time. Balances are untouched.
    pub fn init(&mut self)
        ensures
            final(self).guard_state() == GuardState::Idle,
            forall|a: u64| final(self).balance_of(a) == old(self).balance_of(a),
    {
        self.guard.init();
    }

    /// The balance of an account.
    pub fn get_balance(&self, address: u64) -> (b: u128)
        ensures
            b == self.balance_of(address),
    {
        ledger_lookup(&self.balances, address)
    }

    /// Credits `amount` to `caller`'s balance. `caller` and `amount` stand
    /// for the transaction's sender and attached value, which the host
    /// hands in. Only the caller's balance changes, and the guard is not
    /// involved.
    pub fn deposit(&mut self, caller: u64, amount: u128) -> (r: Result<(), VaultError>)
        requires
            old(self).balance_of(caller) + amount <= u128::MAX,
        ensures
            r == Result::<(), VaultError>::Ok(()),
            final(self).balance_of(caller) == old(self).balance_of(caller) + amount,
            forall|a: u64| a != caller ==> final(self).balance_of(a) == old(self).balance_of(a),
            final(self).guard_state() == old(self).guard_state(),
    {
        let current = ledger_lookup(&self.balances, caller);
        ledger_store(&mut self.balances, caller, current + amount);
        Ok(())
    }

    /// The unprotected withdrawal path. The external `transfer` is invoked
    /// *before* the balance update and receives the vault exactly as it
    /// stands — balances still undebited, guard untouched — so a transfer
    /// that calls back into the vault finds nothing in its way: that is the
    /// re-entrancy window this path leaves open. The contract shows the
    /// flaw: on success the caller's balance is set to the balance read
    /// *before* the transfer minus `amount`, whatever the transfer did to
    /// the vault in between.
    pub fn withdraw_unsafe<F: FnOnce(Vault) -> (Vault, bool)>(
        &mut self,
        caller: u64,
        amount: u128,
        transfer: F,
    ) -> (r: Result<(), VaultError>)
        requires
            old(self).balance_of(caller) >= amount ==> call_requires(transfer, (*old(self),)),
        ensures
            old(self).balance_of(caller) < amount ==> {
                &&& r == Result::<(), VaultError>::Err(VaultError::InsufficientBalance)
                &&& *final(self) == *old(self)
            },
            old(self).balance_of(caller) >= amount ==> exists|v2: Vault, ok: bool| {
                &&& #[trigger] call_ensures(transfer, (*old(self),), (v2, ok))
                &&& !ok ==> {
                    &&& r == Result::<(), VaultError>::Err(VaultError::TransferFailed)
                    &&& *final(self) == v2
                }
                &&& ok ==> {
                    &&& r == Result::<(), VaultError>::Ok(())
                    &&& final(self).balance_of(caller) == old(self).balance_of(caller) - amount
                    &&& forall|a: u64| a != caller ==> final(self).balance_of(a) == v2.balance_of(a)
                    &&& final(self).guard_state() == v2.guard_state()
                }
            },
    {
        let current = ledger_lookup(&self.balances, caller);
        if current < amount {
            return Err(VaultError::InsufficientBalance);
        }
        // External call before the state update: the re-entrancy window.
        let mut taken: Vec<(u64, u128)> = Vec::new();
        core::mem::swap(&mut taken, &mut self.balances);
        let snapshot = Vault { balances: taken, guard: self.guard };
        proof {
            assert(snapshot == *old(self));
        }
        let (v2, ok) = transfer(snapshot);
        let ghost v2_snap = v2;
        *self = v2;
        if !ok {
            proof {
                assert(call_ensures(transfer, (*old(self),), (v2_snap, false)));
            }
            return Err(VaultError::TransferFailed);
        }
        ledger_store(&mut self.balances, caller, current - amount);
        proof {
            assert(call_ensures(transfer, (*old(self),), (v2_snap, true)));
        }
        Ok(())
    }

    /// The protected withdrawal path: the same critical section as
    /// [`Vault::withdraw_unsafe`] — balance check, external transfer before
    /// the debit — but run under the reentrancy guard. The transfer
    /// observes the vault with the guard `Active`
    /// ([`Vault::during_withdraw`]), so a call made from inside it back
    /// into this path is rejected with `ReentrantCall` and changes
    /// nothing. The guard is released on every outcome: success, want of
    /// funds and failed transfer alike leave it `Idle` again.
    pub fn withdraw<F: FnOnce(Vault) -> (Vault, bool)>(
        &mut self,
        caller: u64,
        amount: u128,
        transfer: F,
    ) -> (r: Result<(), VaultError>)
        requires
            old(self).guard_state() == GuardState::Idle && old(self).balance_of(caller) >= amount
                ==> call_requires(transfer, (old(self).during_withdraw(),)),
        ensures
            old(self).guard_state() == GuardState::Active ==> {
                &&& r == Result::<(), VaultError>::Err(VaultError::ReentrancyGuardError(
                    ReentrancyGuardError::ReentrantCall,
                ))
                &&& *final(self) == *old(self)
            },
            old(self).guard_state() == GuardState::Idle ==> final(self).guard_state()
                == GuardState::Idle,
            old(self).guard_state() == GuardState::Idle && old(self).balance_of(caller) < amount
                ==> {
                &&& r == Result::<(), VaultError>::Err(VaultError::InsufficientBalance)
                &&& forall|a: u64| final(self).balance_of(a) == old(self).balance_of(a)
            },
            old(self).guard_state() == GuardState::Idle && old(self).balance_of(caller) >= amount
                ==> exists|v2: Vault, ok: bool| {
                &&& #[trigger] call_ensures(transfer, (old(self).during_withdraw(),), (v2, ok))
                &&& !ok ==> {
                    &&& r == Result::<(), VaultError>::Err(VaultError::TransferFailed)
                    &&& forall|a: u64| final(self).balance_of(a) == v2.balance_of(a)
                }
                &&& ok ==> {
                    &&& r == Result::<(), VaultError>::Ok(())
                    &&& final(self).balance_of(caller) == old(self).balance_of(caller) - amount
                    &&& forall|a: u64| a != caller ==> final(self).balance_of(a) == v2.balance_of(a)
                }
            },
    {
        let mut guard = self.guard;
        let mut taken: Vec<(u64, u128)> = Vec::new();
        core::mem::swap(&mut taken, &mut self.balances);
        let section = move |gg: ReentrancyGuard, b: Vec<(u64, u128)>| -> (sout: (
            Vec<(u64, u128)>,
            Result<Result<(), VaultError>, ReentrancyGuardError>,
        ))
            requires
                gg == active_guard(),
                ledger_balance_of(b@, caller) >= amount ==> call_requires(
                    transfer,
                    ((Vault { balances: b, guard: gg }),),
                ),
            ensures
                ledger_balance_of(b@, caller) < amount ==> {
                    &&& sout.0 == b
                    &&& sout.1 == Result::<Result<(), VaultError>, ReentrancyGuardError>::Ok(
                        Result::<(), VaultError>::Err(VaultError::InsufficientBalance),
                    )
                },
                ledger_balance_of(b@, caller) >= amount ==> exists|v2: Vault, ok: bool| {
                    &&& #[trigger] call_ensures(
                        transfer,
                        ((Vault { balances: b, guard: gg }),),
                        (v2, ok),
                    )
                    &&& !ok ==> {
                        &&& sout.1 == Result::<Result<(), VaultError>, ReentrancyGuardError>::Ok(
                            Result::<(), VaultError>::Err(VaultError::TransferFailed),
                        )
                        &&& forall|a: u64| ledger_balance_of(sout.0@, a) == v2.balance_of(a)
                    }
                    &&& ok ==> {
                        &&& sout.1 == Result::<Result<(), VaultError>, ReentrancyGuardError>::Ok(
                            Result::<(), VaultError>::Ok(()),
                        )
                        &&& ledger_balance_of(sout.0@, caller) == ledger_balance_of(b@, caller)
                            - amount
                        &&& forall|a: u64| a != caller ==> ledger_balance_of(sout.0@, a)
                            == v2.balance_of(a)
                    }
                },
            {
                let current = ledger_lookup(&b, caller);
                if current < amount {
                    (b, Ok(Err(VaultError::InsufficientBalance)))
                } else {
                    let mid = Vault { balances: b, guard: gg };
                    let (v2, ok) = transfer(mid);
                    let ghost v2_snap = v2;
                    let Vault { balances: b2, guard: _ } = v2;
                    if !ok {
                        proof {
                            assert(call_ensures(
                                transfer,
                                ((Vault { balances: b, guard: gg }),),
                                (v2_snap, false),
                            ));
                        }
                        (b2, Ok(Err(VaultError::TransferFailed)))
                    } else {
                        let mut b3 = b2;
                        ledger_store(&mut b3, caller, current - amount);
                        proof {
                            assert(call_ensures(
                                transfer,
                                ((Vault { balances: b, guard: gg }),),
                                (v2_snap, true),
                            ));
                        }
                        (b3, Ok(Ok(())))
                    }
                }
            };
        let (b_out, res) = guard.non_reentrant(taken, section);
        self.balances = b_out;
        self.guard = guard;
        match res {
            Ok(inner) => inner,
            Err(e) => Err(VaultError::ReentrancyGuardError(e)),
        }
    }
}

/// What an external transfer called from the protected path observes: the
/// balances as they stood when the withdrawal began, with the guard
/// `Active` — so any attempt to re-enter the vault's protected path from
/// inside the transfer is rejected.
pub proof fn lemma_during_withdraw(v: Vault)
    ensures
        v.during_withdraw().guard_state() == GuardState::Active,
        forall|a: u64| v.during_withdraw().balance_of(a) == v.balance_of(a),
{
    lemma_active_guard_state();
}

/// The balance recorded for `account`, by a scan of the ledger.
fn ledger_lookup(entries: &Vec<(u64, u128)>, account: u64) -> (b: u128)
    ensures
        b == ledger_balance_of(entries@, account),
{
    let mut i: usize = 0;
    proof {
        assert(entries@.skip(0) =~= entries@);
    }
    while i < entries.len()
        invariant
            0 <= i <= entries@.len(),
            ledger_balance_of(entries@, account) == ledger_balance_of(
                entries@.skip(i as int),
                account,
            ),
        decreases entries@.len() - i,
    {
        let e = entries[i];
        if e.0 == account {
            proof {
                assert(entries@.skip(i as int)[0] == e);
            }
            return e.1;
        }
        proof {
            assert(entries@.skip(i as int).drop_first() =~= entries@.skip(i as int + 1));
        }
        i += 1;
    }
    0
}

/// Records `amount` as the balance of `account`: the account's first ledger
/// entry is overwritten, or a new entry is appended when none exists. Every
/// other account's balance is unchanged.
fn ledger_store(entries: &mut Vec<(u64, u128)>, account: u64, amount: u128)
    ensures
        ledger_balance_of(final(entries)@, account) == amount,
        forall|a: u64| a != account ==> ledger_balance_of(final(entries)@, a)
            == ledger_balance_of(old(entries)@, a),
{
    let mut i: usize = 0;
    while i < entries.len()
        invariant
            0 <= i <= entries@.len(),
            entries@ == old(entries)@,
            forall|j: int| 0 <= j < i ==> entries@[j].0 != account,
        decreases entries@.len() - i,
    {
        let e = entries[i];
        if e.0 == account {
            entries.set(i, (account, amount));
            proof {
                lemma_ledger_update(old(entries)@, i as int, account, amount);
            }
            return;
        }
        i += 1;
    }
    entries.push((account, amount));
    proof {
        lemma_ledger_append(old(entries)@, account, amount);
    }
}

/// Overwriting the first entry of an account rewrites that account's
/// balance and no other.
proof fn lemma_ledger_update(s: Seq<(u64, u128)>, i: int, account: u64, amount: u128)
    requires
        0 <= i < s.len(),
        s[i].0 == account,
        forall|j: int| 0 <= j < i ==> s[j].0 != account,
    ensures
        ledger_balance_of(s.update(i, (account, amount)), account) == amount,
        forall|a: u64| a != account ==> ledger_balance_of(s.update(i, (account, amount)), a)
            == ledger_balance_of(s, a),
    decreases i,
{
    let t = s.update(i, (account, amount));
    if i == 0 {
        assert(t[0] == (account, amount));
        assert(t.drop_first() =~= s.drop_first());
        assert forall|a: u64| a != account implies ledger_balance_of(t, a)
            == ledger_balance_of(s, a) by {
            assert(ledger_balance_of(t, a) == ledger_balance_of(t.drop_first(), a));
            assert(ledger_balance_of(s, a) == ledger_balance_of(s.drop_first(), a));
        }
    } else {
        lemma_ledger_update(s.drop_first(), i - 1, account, amount);
        assert(t[0] == s[0]);
        assert(t.drop_first() =~= s.drop_first().update(i - 1, (account, amount)));
        assert forall|a: u64| a != account implies ledger_balance_of(t, a)
            == ledger_balance_of(s, a) by {
            if t[0].0 != a {
                assert(ledger_balance_of(t, a) == ledger_balance_of(t.drop_first(), a));
                assert(ledger_balance_of(s, a) == ledger_balance_of(s.drop_first(), a));
            }
        }
    }
}

/// Appending an entry for an account the ledger does not hold sets that
/// account's balance and no other.
proof fn lemma_ledger_append(s: Seq<(u64, u128)>, account: u64, amount: u128)
    requires
        forall|j: int| 0 <= j < s.len() ==> s[j].0 != account,
    ensures
        ledger_balance_of(s.push((account, amount)), account) == amount,
        forall|a: u64| a != account ==> ledger_balance_of(s.push((account, amount)), a)
            == ledger_balance_of(s, a),
    decreases s.len(),
{
    let t = s.push((account, amount));
    if s.len() == 0 {
        assert(t[0] == (account, amount));
        assert(t.drop_first() =~= Seq::<(u64, u128)>::empty());
        assert forall|a: u64| a != account implies ledger_balance_of(t, a)
            == ledger_balance_of(s, a) by {
            assert(ledger_balance_of(t, a) == ledger_balance_of(t.drop_first(), a));
        }
    } else {
        lemma_ledger_append(s.drop_first(), account, amount);
        assert(t[0] == s[0]);
        assert(t.drop_first() =~= s.drop_first().push((account, amount)));
        assert forall|a: u64| a != account implies ledger_balance_of(t, a)
            == ledger_balance_of(s, a) by {
            if t[0].0 != a {
                assert(ledger_balance_of(t, a) == ledger_balance_of(t.drop_first(), a));
                assert(ledger_balance_of(s, a) == ledger_balance_of(s.drop_first(), a));
            }
        }
    }
}

} // verus!
