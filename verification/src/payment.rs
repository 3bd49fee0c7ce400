use crate::address::Address;
use crate::auth::Authorization;
use vstd::prelude::*;

verus! {

/// Why the payment rail turned a movement of funds down.
#[derive(Clone, Copy, Debug, PartialEq, Eq)]
pub enum TransferError {
    /// The amount is below zero.
    NegativeAmount,
    /// The payer has not consented to the invocation.
    Unauthorized,
    /// The payer holds less than the amount.
    InsufficientBalance,
    /// The recipient's balance would pass the largest amount the rail can hold.
    BalanceOverflow,
}

struct Account {
    holder: Address,
    balance: i128,
}

/// The payment rail: the balance that every identity holds in the payment
/// asset. An identity that never received funds holds zero.
pub struct PaymentRail {
    accounts: Vec<Account>,
}

spec fn distinct_holders(accounts: Seq<Account>) -> bool {
    forall|i: int, j: int|
        0 <= i < j < accounts.len() ==> accounts[i].holder@ != accounts[j].holder@
}

spec fn holds_account(accounts: Seq<Account>, who: Seq<char>) -> bool {
    exists|i: int| 0 <= i < accounts.len() && accounts[i].holder@ == who
}

spec fn balance_in(accounts: Seq<Account>, who: Seq<char>) -> int {
    if holds_account(accounts, who) {
        let i = choose|i: int| 0 <= i < accounts.len() && accounts[i].holder@ == who;
        accounts[i].balance as int
    } else {
        0
    }
}

proof fn lemma_balance_at(accounts: Seq<Account>, i: int)
    requires
        distinct_holders(accounts),
        0 <= i < accounts.len(),
    ensures
        holds_account(accounts, accounts[i].holder@),
        balance_in(accounts, accounts[i].holder@) == accounts[i].balance,
{
    let who = accounts[i].holder@;
    let k = choose|k: int| 0 <= k < accounts.len() && accounts[k].holder@ == who;
    assert(k == i);
}

proof fn lemma_balance_updated(before: Seq<Account>, after: Seq<Account>, i: int)
    requires
        distinct_holders(before),
        0 <= i < before.len(),
        after.len() == before.len(),
        forall|k: int| 0 <= k < before.len() ==> after[k].holder@ == before[k].holder@,
        forall|k: int| 0 <= k < before.len() && k != i ==> after[k].balance == before[k].balance,
    ensures
        distinct_holders(after),
        forall|who: Seq<char>|
            #[trigger] balance_in(after, who) == if who == before[i].holder@ {
                after[i].balance as int
            } else {
                balance_in(before, who)
            },
{
    assert forall|who: Seq<char>|
        #[trigger] balance_in(after, who) == if who == before[i].holder@ {
            after[i].balance as int
        } else {
            balance_in(before, who)
        } by {
        if holds_account(before, who) {
            let k = choose|k: int| 0 <= k < before.len() && before[k].holder@ == who;
            lemma_balance_at(before, k);
            lemma_balance_at(after, k);
        } else if holds_account(after, who) {
            let k = choose|k: int| 0 <= k < after.len() && after[k].holder@ == who;
            assert(before[k].holder@ == who);
        }
    }
}

proof fn lemma_balance_pushed(before: Seq<Account>, account: Account)
    requires
        distinct_holders(before),
        !holds_account(before, account.holder@),
    ensures
        distinct_holders(before.push(account)),
        forall|who: Seq<char>|
            #[trigger] balance_in(before.push(account), who) == if who == account.holder@ {
                account.balance as int
            } else {
                balance_in(before, who)
            },
{
    let after = before.push(account);
    assert forall|i: int, j: int| 0 <= i < j < after.len() implies after[i].holder@
        != after[j].holder@ by {
        if j == before.len() {
            assert(before[i].holder@ == after[i].holder@);
        }
    }
    assert forall|who: Seq<char>|
        #[trigger] balance_in(after, who) == if who == account.holder@ {
            account.balance as int
        } else {
            balance_in(before, who)
        } by {
        if who == account.holder@ {
            lemma_balance_at(after, before.len() as int);
        } else if holds_account(before, who) {
            let k = choose|k: int| 0 <= k < before.len() && before[k].holder@ == who;
            lemma_balance_at(before, k);
            lemma_balance_at(after, k);
        } else if holds_account(after, who) {
            let k = choose|k: int| 0 <= k < after.len() && after[k].holder@ == who;
            assert(before[k].holder@ == who);
        }
    }
}

fn find_account(accounts: &Vec<Account>, who: &Address) -> (r: Option<usize>)
    ensures
        match r {
            Some(i) => i < accounts@.len() && accounts@[i as int].holder@ == who@,
            None => !holds_account(accounts@, who@),
        },
{
    let mut i: usize = 0;
    while i < accounts.len()
        invariant
            0 <= i <= accounts@.len(),
            forall|k: int| 0 <= k < i ==> accounts@[k].holder@ != who@,
        decreases accounts@.len() - i,
    {
        if accounts[i].holder == *who {
            return Some(i);
        }
        i += 1;
    }
    None
}

impl View for PaymentRail {
    type V = Map<Seq<char>, int>;

    closed spec fn view(&self) -> Map<Seq<char>, int> {
        Map::total(|who: Seq<char>| balance_in(self.accounts@, who))
    }
}

impl PaymentRail {
    #[verifier::type_invariant]
    spec fn well_formed(self) -> bool {
        &&& distinct_holders(self.accounts@)
        &&& forall|i: int| 0 <= i < self.accounts@.len() ==> self.accounts@[i].balance >= 0
    }

    /// The balances of a rail on which nobody holds anything.
    pub open spec fn no_funds() -> Map<Seq<char>, int> {
        Map::total(|who: Seq<char>| 0int)
    }

    /// The balances after `amount` is added to what `to` holds.
    pub open spec fn credited(balances: Map<Seq<char>, int>, to: Seq<char>, amount: int) -> Map<
        Seq<char>,
        int,
    > {
        balances.insert(to, balances[to] + amount)
    }

    /// The balances after `amount` has moved from `from` to `to`.
    pub open spec fn moved(
        balances: Map<Seq<char>, int>,
        from: Seq<char>,
        to: Seq<char>,
        amount: int,
    ) -> Map<Seq<char>, int> {
        PaymentRail::credited(PaymentRail::credited(balances, from, -amount), to, amount)
    }

    /// Why a deposit of `amount` to `to` is turned down, if it is.
    pub open spec fn deposit_refusal(balances: Map<Seq<char>, int>, to: Seq<char>, amount: int) -> Option<
        TransferError,
    > {
        if amount < 0 {
            Some(TransferError::NegativeAmount)
        } else if balances[to] + amount > i128::MAX {
            Some(TransferError::BalanceOverflow)
        } else {
            None
        }
    }

    /// Why a transfer of `amount` from `from` to `to` is turned down, if it
    /// is, in an invocation that `signers` have consented to. The checks
    /// are listed in the order in which the rail makes them.
    pub open spec fn transfer_refusal(
        balances: Map<Seq<char>, int>,
        signers: Set<Seq<char>>,
        from: Seq<char>,
        to: Seq<char>,
        amount: int,
    ) -> Option<TransferError> {
        if amount < 0 {
            Some(TransferError::NegativeAmount)
        } else if !signers.contains(from) {
            Some(TransferError::Unauthorized)
        } else if balances[from] < amount {
            Some(TransferError::InsufficientBalance)
        } else if from != to && balances[to] + amount > i128::MAX {
            Some(TransferError::BalanceOverflow)
        } else {
            None
        }
    }

    /// A rail on which nobody holds anything.
    pub fn new() -> (rail: PaymentRail)
        ensures
            rail@ == PaymentRail::no_funds(),
    {
        let rail = PaymentRail { accounts: Vec::new() };
        assert(rail@ =~= PaymentRail::no_funds());
        rail
    }

    /// What `who` holds.
    pub fn balance(&self, who: &Address) -> (b: i128)
        ensures
            b == self@[who@],
            b >= 0,
    {
        proof {
            use_type_invariant(self);
        }
        match find_account(&self.accounts, who) {
            Some(i) => {
                proof {
                    lemma_balance_at(self.accounts@, i as int);
                }
                self.accounts[i].balance
            },
            None => 0,
        }
    }

    /// Issues `amount` of new funds to `to`. A refused deposit changes
    /// nothing.
    pub fn deposit(&mut self, to: &Address, amount: i128) -> (r: Result<(), TransferError>)
        ensures
            match PaymentRail::deposit_refusal(old(self)@, to@, amount as int) {
                Some(e) => r == Err::<(), TransferError>(e) && final(self)@ == old(self)@,
                None => r is Ok && final(self)@ == PaymentRail::credited(
                    old(self)@,
                    to@,
                    amount as int,
                ),
            },
    {
        if amount < 0 {
            return Err(TransferError::NegativeAmount);
        }
        let held = self.balance(to);
        if held > i128::MAX - amount {
            return Err(TransferError::BalanceOverflow);
        }
        self.set_balance(to, held + amount);
        assert(final(self)@ =~= PaymentRail::credited(old(self)@, to@, amount as int));
        Ok(())
    }

    /// Tells why a transfer of `amount` from `from` to `to` would be turned
    /// down, without moving anything.
    pub fn check_transfer(
        &self,
        auth: &Authorization,
        from: &Address,
        to: &Address,
        amount: i128,
    ) -> (refusal: Option<TransferError>)
        ensures
            refusal == PaymentRail::transfer_refusal(self@, auth@, from@, to@, amount as int),
    {
        if amount < 0 {
            return Some(TransferError::NegativeAmount);
        }
        if !auth.permits(from) {
            return Some(TransferError::Unauthorized);
        }
        if self.balance(from) < amount {
            return Some(TransferError::InsufficientBalance);
        }
        if *from != *to && self.balance(to) > i128::MAX - amount {
            return Some(TransferError::BalanceOverflow);
        }
        None
    }

    /// Moves `amount` from `from` to `to`. The payer must have consented to
    /// the invocation and hold at least `amount`. A refused transfer changes
    /// nothing.
    pub fn transfer(
        &mut self,
        auth: &Authorization,
        from: &Address,
        to: &Address,
        amount: i128,
    ) -> (r: Result<(), TransferError>)
        ensures
            match PaymentRail::transfer_refusal(old(self)@, auth@, from@, to@, amount as int) {
                Some(e) => r == Err::<(), TransferError>(e) && final(self)@ == old(self)@,
                None => r is Ok && final(self)@ == PaymentRail::moved(
                    old(self)@,
                    from@,
                    to@,
                    amount as int,
                ),
            },
    {
        if amount < 0 {
            return Err(TransferError::NegativeAmount);
        }
        if !auth.permits(from) {
            return Err(TransferError::Unauthorized);
        }
        let paid = self.balance(from);
        if paid < amount {
            return Err(TransferError::InsufficientBalance);
        }
        if *from == *to {
            assert(old(self)@ =~= PaymentRail::moved(old(self)@, from@, to@, amount as int));
            return Ok(());
        }
        let held = self.balance(to);
        if held > i128::MAX - amount {
            return Err(TransferError::BalanceOverflow);
        }
        self.set_balance(from, paid - amount);
        self.set_balance(to, held + amount);
        assert(final(self)@ =~= PaymentRail::moved(old(self)@, from@, to@, amount as int));
        Ok(())
    }

    fn set_balance(&mut self, who: &Address, balance: i128)
        requires
            balance >= 0,
        ensures
            final(self)@ == old(self)@.insert(who@, balance as int),
    {
        proof {
            use_type_invariant(&*self);
        }
        let mut accounts: Vec<Account> = Vec::new();
        core::mem::swap(&mut self.accounts, &mut accounts);
        let ghost before = accounts@;
        match find_account(&accounts, who) {
            Some(i) => {
                accounts[i].balance = balance;
                proof {
                    lemma_balance_updated(before, accounts@, i as int);
                }
            },
            None => {
                let account = Account { holder: who.clone(), balance };
                proof {
                    lemma_balance_pushed(before, account);
                }
                accounts.push(account);
            },
        }
        self.accounts = accounts;
        assert(final(self)@ =~= old(self)@.insert(who@, balance as int));
    }
}

} // verus!
