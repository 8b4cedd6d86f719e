//! The token balances that the operations move: a set of balance holders,
//! each the balance of one owner in one token.

use vstd::prelude::*;
use crate::address::Address;
use crate::error::SplurgeError;

verus! {

/// The decimals and address of a payment token.
#[derive(Clone, Copy, Debug, PartialEq, Eq, Structural)]
pub struct Mint {
    pub key: Address,
    pub decimals: u8,
}

/// What names a balance holder: its owner and the token it holds.
#[derive(Clone, Copy, Debug, PartialEq, Eq, Structural)]
pub struct Holder {
    pub owner: Address,
    pub mint: Address,
}

/// A balance holder with its balance.
#[derive(Clone, Copy, Debug, PartialEq, Eq, Structural)]
pub struct TokenAccount {
    pub mint: Address,
    pub owner: Address,
    pub amount: u64,
}

impl TokenAccount {
    /// The owner and token of this account.
    pub open spec fn holder(self) -> Holder {
        Holder { owner: self.owner, mint: self.mint }
    }
}

/// No two of the accounts have the same owner and token.
pub open spec fn distinct_holders(s: Seq<TokenAccount>) -> bool {
    forall|i: int, j: int| 0 <= i < j < s.len() ==> s[i].holder() != s[j].holder()
}

/// Whether some account of `s` belongs to `h`.
pub open spec fn holds(s: Seq<TokenAccount>, h: Holder) -> bool {
    exists|i: int| 0 <= i < s.len() && #[trigger] s[i].holder() == h
}

/// The balances of the accounts, by holder.
pub open spec fn balances_of(s: Seq<TokenAccount>) -> Map<Holder, u64> {
    Map::new(
        |h: Holder| holds(s, h),
        |h: Holder| s[choose|i: int| 0 <= i < s.len() && #[trigger] s[i].holder() == h].amount,
    )
}

/// What a transfer of `amount` from one holder to another makes of the
/// balances `m`, or why it is refused.
pub open spec fn transfer_outcome(m: Map<Holder, u64>, from: Holder, to: Holder, amount: u64)
    -> Result<Map<Holder, u64>, SplurgeError> {
    if !m.dom().contains(from) || !m.dom().contains(to) {
        Err(SplurgeError::InvalidTokenAccount)
    } else if m[from] < amount {
        Err(SplurgeError::InsufficientFunds)
    } else if from == to {
        Ok(m)
    } else if m[to] + amount > u64::MAX {
        Err(SplurgeError::MathOverflow)
    } else {
        Ok(m.insert(from, (m[from] - amount) as u64).insert(to, (m[to] + amount) as u64))
    }
}

/// What crediting `amount` to a holder makes of the balances `m`.
pub open spec fn deposit_outcome(m: Map<Holder, u64>, to: Holder, amount: u64) -> Result<
    Map<Holder, u64>,
    SplurgeError,
> {
    if !m.dom().contains(to) {
        Err(SplurgeError::InvalidTokenAccount)
    } else if m[to] + amount > u64::MAX {
        Err(SplurgeError::MathOverflow)
    } else {
        Ok(m.insert(to, (m[to] + amount) as u64))
    }
}

/// What closing a holder makes of the balances `m`: only an empty holder can
/// be closed.
pub open spec fn close_outcome(m: Map<Holder, u64>, h: Holder) -> Result<
    Map<Holder, u64>,
    SplurgeError,
> {
    if !m.dom().contains(h) {
        Err(SplurgeError::InvalidTokenAccount)
    } else if m[h] != 0 {
        Err(SplurgeError::NonEmptyTokenAccount)
    } else {
        Ok(m.remove(h))
    }
}

/// The balances `m` with the holder `h` opened, if it was not open yet.
pub open spec fn opened(m: Map<Holder, u64>, h: Holder) -> Map<Holder, u64> {
    if m.dom().contains(h) {
        m
    } else {
        m.insert(h, 0)
    }
}

/// The account at an index is the one that the balances show for its holder.
pub proof fn lemma_balance_at(s: Seq<TokenAccount>, i: int)
    requires
        distinct_holders(s),
        0 <= i < s.len(),
    ensures
        balances_of(s).dom().contains(s[i].holder()),
        balances_of(s)[s[i].holder()] == s[i].amount,
{
    let h = s[i].holder();
    let k = choose|k: int| 0 <= k < s.len() && #[trigger] s[k].holder() == h;
    assert(k == i);
}

/// Changing the balance of one account changes the balances at its holder
/// and nowhere else.
pub proof fn lemma_balances_update(s: Seq<TokenAccount>, i: int, amount: u64)
    requires
        distinct_holders(s),
        0 <= i < s.len(),
    ensures
        distinct_holders(s.update(i, TokenAccount { amount, ..s[i] })),
        balances_of(s.update(i, TokenAccount { amount, ..s[i] })) == balances_of(s).insert(
            s[i].holder(),
            amount,
        ),
{
    let t = s.update(i, TokenAccount { amount, ..s[i] });
    assert forall|j: int| 0 <= j < s.len() implies #[trigger] t[j].holder() == s[j].holder() by {}
    let m = balances_of(s).insert(s[i].holder(), amount);
    assert forall|h: Holder| #[trigger] balances_of(t).dom().contains(h) == m.dom().contains(h) by {
        if holds(t, h) {
            let k = choose|k: int| 0 <= k < t.len() && #[trigger] t[k].holder() == h;
            assert(s[k].holder() == h);
        }
        if holds(s, h) {
            let k = choose|k: int| 0 <= k < s.len() && #[trigger] s[k].holder() == h;
            assert(t[k].holder() == h);
        }
    }
    assert forall|h: Holder| balances_of(t).dom().contains(h) implies #[trigger] balances_of(t)[h]
        == m[h] by {
        let k = choose|k: int| 0 <= k < t.len() && #[trigger] t[k].holder() == h;
        lemma_balance_at(t, k);
        lemma_balance_at(s, k);
    }
    assert(balances_of(t) =~= m);
}

/// A new account of a holder that had none adds that holder to the balances.
pub proof fn lemma_balances_push(s: Seq<TokenAccount>, a: TokenAccount)
    requires
        distinct_holders(s),
        !holds(s, a.holder()),
    ensures
        distinct_holders(s.push(a)),
        balances_of(s.push(a)) == balances_of(s).insert(a.holder(), a.amount),
{
    let t = s.push(a);
    assert forall|i: int, j: int| 0 <= i < j < t.len() implies t[i].holder() != t[j].holder() by {
        if j == s.len() {
            assert(s[i].holder() == t[i].holder());
        }
    }
    let m = balances_of(s).insert(a.holder(), a.amount);
    assert(t[s.len() as int].holder() == a.holder());
    assert forall|h: Holder| #[trigger] balances_of(t).dom().contains(h) == m.dom().contains(h) by {
        if holds(t, h) {
            let k = choose|k: int| 0 <= k < t.len() && #[trigger] t[k].holder() == h;
            if k < s.len() {
                assert(s[k].holder() == h);
            }
        }
        if holds(s, h) {
            let k = choose|k: int| 0 <= k < s.len() && #[trigger] s[k].holder() == h;
            assert(t[k].holder() == h);
        }
    }
    assert forall|h: Holder| balances_of(t).dom().contains(h) implies #[trigger] balances_of(t)[h]
        == m[h] by {
        let k = choose|k: int| 0 <= k < t.len() && #[trigger] t[k].holder() == h;
        lemma_balance_at(t, k);
        if k < s.len() {
            lemma_balance_at(s, k);
        }
    }
    assert(balances_of(t) =~= m);
}

/// Taking an account away takes its holder out of the balances.
pub proof fn lemma_balances_remove(s: Seq<TokenAccount>, i: int)
    requires
        distinct_holders(s),
        0 <= i < s.len(),
    ensures
        distinct_holders(s.remove(i)),
        balances_of(s.remove(i)) == balances_of(s).remove(s[i].holder()),
{
    let t = s.remove(i);
    let gone = s[i].holder();
    assert forall|j: int| 0 <= j < t.len() implies #[trigger] t[j] == s[if j < i {
        j
    } else {
        j + 1
    }] by {}
    let m = balances_of(s).remove(gone);
    assert forall|h: Holder| #[trigger] balances_of(t).dom().contains(h) == m.dom().contains(h) by {
        if holds(t, h) {
            let k = choose|k: int| 0 <= k < t.len() && #[trigger] t[k].holder() == h;
            let k2 = if k < i {
                k
            } else {
                k + 1
            };
            assert(s[k2].holder() == h);
        }
        if holds(s, h) && h != gone {
            let k = choose|k: int| 0 <= k < s.len() && #[trigger] s[k].holder() == h;
            let k2 = if k < i {
                k
            } else {
                k - 1
            };
            assert(t[k2].holder() == h);
        }
    }
    assert forall|h: Holder| balances_of(t).dom().contains(h) implies #[trigger] balances_of(t)[h]
        == m[h] by {
        let k = choose|k: int| 0 <= k < t.len() && #[trigger] t[k].holder() == h;
        let k2 = if k < i {
            k
        } else {
            k + 1
        };
        lemma_balance_at(t, k);
        lemma_balance_at(s, k2);
    }
    assert(balances_of(t) =~= m);
}

/// The balance holders of the ledger, as far as the operations at hand touch
/// them. No owner has two holders of one token.
#[derive(Debug)]
pub struct Ledger {
    accounts: Vec<TokenAccount>,
}

impl View for Ledger {
    type V = Map<Holder, u64>;

    closed spec fn view(&self) -> Map<Holder, u64> {
        balances_of(self.accounts@)
    }
}

impl Ledger {
    #[verifier::type_invariant]
    spec fn well_formed(self) -> bool {
        distinct_holders(self.accounts@)
    }

    /// A ledger without balance holders.
    pub fn new() -> (ledger: Ledger)
        ensures
            ledger@ == Map::<Holder, u64>::empty(),
    {
        let ledger = Ledger { accounts: Vec::new() };
        ledger
    }

    /// Where the account of a holder stands, if it has one.
    fn position(&self, owner: Address, mint: Address) -> (r: Option<usize>)
        ensures
            match r {
                Some(i) => i < self.accounts@.len() && self.accounts@[i as int].holder() == (Holder {
                    owner,
                    mint,
                }),
                None => !holds(self.accounts@, Holder { owner, mint }),
            },
    {
        let mut i: usize = 0;
        while i < self.accounts.len()
            invariant
                i <= self.accounts@.len(),
                forall|j: int| 0 <= j < i ==> self.accounts@[j].holder() != (Holder { owner, mint }),
            decreases self.accounts@.len() - i,
        {
            let account = self.accounts[i];
            if account.owner == owner && account.mint == mint {
                return Some(i);
            }
            i = i + 1;
        }
        None
    }

    /// The balance of an owner in a token, if the owner holds that token.
    pub fn balance(&self, owner: Address, mint: Address) -> (r: Option<u64>)
        ensures
            r == (if self@.dom().contains(Holder { owner, mint }) {
                Some(self@[Holder { owner, mint }])
            } else {
                None
            }),
    {
        proof {
            use_type_invariant(self);
        }
        match self.position(owner, mint) {
            Some(i) => {
                proof {
                    lemma_balance_at(self.accounts@, i as int);
                }
                Some(self.accounts[i].amount)
            },
            None => None,
        }
    }

    /// A copy of the ledger.
    pub fn duplicate(&self) -> (copy: Ledger)
        ensures
            copy@ == self@,
    {
        proof {
            use_type_invariant(self);
        }
        let mut accounts: Vec<TokenAccount> = Vec::new();
        let mut i: usize = 0;
        while i < self.accounts.len()
            invariant
                i <= self.accounts@.len(),
                accounts@ == self.accounts@.subrange(0, i as int),
            decreases self.accounts@.len() - i,
        {
            accounts.push(self.accounts[i]);
            i = i + 1;
        }
        assert(accounts@ =~= self.accounts@);
        Ledger { accounts }
    }

    /// Opens a holder for an owner in a token, with no balance. A holder that
    /// is open already stays as it is.
    pub fn create_balance_holder(&mut self, owner: Address, mint: Address)
        ensures
            final(self)@ == opened(old(self)@, Holder { owner, mint }),
    {
        proof {
            use_type_invariant(&*self);
        }
        if self.position(owner, mint).is_none() {
            let mut accounts: Vec<TokenAccount> = Vec::new();
            std::mem::swap(&mut self.accounts, &mut accounts);
            proof {
                lemma_balances_push(accounts@, TokenAccount { mint, owner, amount: 0 });
            }
            accounts.push(TokenAccount { mint, owner, amount: 0 });
            std::mem::swap(&mut self.accounts, &mut accounts);
        }
    }

    /// Credits `amount` to a holder from outside the ledger.
    pub fn deposit(&mut self, owner: Address, mint: Address, amount: u64) -> (r: Result<
        (),
        SplurgeError,
    >)
        ensures
            match deposit_outcome(old(self)@, Holder { owner, mint }, amount) {
                Ok(m) => r is Ok && final(self)@ == m,
                Err(e) => r == Err::<(), SplurgeError>(e) && final(self)@ == old(self)@,
            },
    {
        proof {
            use_type_invariant(&*self);
        }
        let i = match self.position(owner, mint) {
            Some(i) => i,
            None => {
                return Err(SplurgeError::InvalidTokenAccount);
            },
        };
        let account = self.accounts[i];
        proof {
            lemma_balance_at(self.accounts@, i as int);
        }
        if account.amount > u64::MAX - amount {
            return Err(SplurgeError::MathOverflow);
        }
        proof {
            lemma_balances_update(self.accounts@, i as int, (account.amount + amount) as u64);
        }
        let mut accounts: Vec<TokenAccount> = Vec::new();
        std::mem::swap(&mut self.accounts, &mut accounts);
        accounts[i] = TokenAccount { amount: account.amount + amount, ..account };
        std::mem::swap(&mut self.accounts, &mut accounts);
        Ok(())
    }

    /// Moves `amount` of the token `token` from the holder of `from` to that
    /// of `to`. Both must be open and `from` must hold at least `amount`.
    pub fn transfer(&mut self, from: Address, to: Address, amount: u64, token: Address) -> (r:
        Result<(), SplurgeError>)
        ensures
            match transfer_outcome(
                old(self)@,
                Holder { owner: from, mint: token },
                Holder { owner: to, mint: token },
                amount,
            ) {
                Ok(m) => r is Ok && final(self)@ == m,
                Err(e) => r == Err::<(), SplurgeError>(e) && final(self)@ == old(self)@,
            },
    {
        proof {
            use_type_invariant(&*self);
        }
        let (i, j) = match (self.position(from, token), self.position(to, token)) {
            (Some(i), Some(j)) => (i, j),
            _ => {
                return Err(SplurgeError::InvalidTokenAccount);
            },
        };
        let source = self.accounts[i];
        let target = self.accounts[j];
        proof {
            lemma_balance_at(self.accounts@, i as int);
            lemma_balance_at(self.accounts@, j as int);
        }
        if source.amount < amount {
            return Err(SplurgeError::InsufficientFunds);
        }
        if i == j {
            return Ok(());
        }
        if target.amount > u64::MAX - amount {
            return Err(SplurgeError::MathOverflow);
        }
        proof {
            lemma_balances_update(self.accounts@, i as int, (source.amount - amount) as u64);
            lemma_balances_update(
                self.accounts@.update(
                    i as int,
                    TokenAccount { amount: (source.amount - amount) as u64, ..source },
                ),
                j as int,
                (target.amount + amount) as u64,
            );
        }
        let mut accounts: Vec<TokenAccount> = Vec::new();
        std::mem::swap(&mut self.accounts, &mut accounts);
        accounts[i] = TokenAccount { amount: source.amount - amount, ..source };
        accounts[j] = TokenAccount { amount: target.amount + amount, ..target };
        std::mem::swap(&mut self.accounts, &mut accounts);
        Ok(())
    }

    /// Closes the holder of an owner in a token, which must be empty.
    pub fn close_balance_holder(&mut self, owner: Address, mint: Address) -> (r: Result<
        (),
        SplurgeError,
    >)
        ensures
            match close_outcome(old(self)@, Holder { owner, mint }) {
                Ok(m) => r is Ok && final(self)@ == m,
                Err(e) => r == Err::<(), SplurgeError>(e) && final(self)@ == old(self)@,
            },
    {
        proof {
            use_type_invariant(&*self);
        }
        let i = match self.position(owner, mint) {
            Some(i) => i,
            None => {
                return Err(SplurgeError::InvalidTokenAccount);
            },
        };
        proof {
            lemma_balance_at(self.accounts@, i as int);
        }
        if self.accounts[i].amount != 0 {
            return Err(SplurgeError::NonEmptyTokenAccount);
        }
        let mut accounts: Vec<TokenAccount> = Vec::new();
        std::mem::swap(&mut self.accounts, &mut accounts);
        proof {
            lemma_balances_remove(accounts@, i as int);
        }
        accounts.remove(i);
        std::mem::swap(&mut self.accounts, &mut accounts);
        Ok(())
    }
}

} // verus!
