use vstd::prelude::*;

verus! {

/// One mint: `amount` tokens from faucet number `faucet` to account number `account`.
#[derive(Clone, Copy, Debug, PartialEq, Eq, Structural)]
pub struct MintOrder {
    pub account: usize,
    pub faucet: usize,
    pub amount: u64,
}

/// The mints for one account, over the first `faucets` entries of its row, in faucet order;
/// a zero entry mints nothing.
pub open spec fn row_orders(row: Seq<u64>, account: nat, faucets: nat) -> Seq<MintOrder>
    decreases faucets,
{
    if faucets == 0 {
        Seq::<MintOrder>::empty()
    } else {
        let f = (faucets - 1) as nat;
        let before = row_orders(row, account, f);
        if row[f as int] == 0 {
            before
        } else {
            before.push(MintOrder { account: account as usize, faucet: f as usize, amount: row[f as int] })
        }
    }
}

/// The mints for the first `accounts` accounts, account by account.
pub open spec fn mint_orders(balances: Seq<Vec<u64>>, accounts: nat, faucets: nat) -> Seq<MintOrder>
    decreases accounts,
{
    if accounts == 0 {
        Seq::<MintOrder>::empty()
    } else {
        let a = (accounts - 1) as nat;
        mint_orders(balances, a, faucets) + row_orders(balances[a as int]@, a, faucets)
    }
}

/// A row yields at most one mint per faucet.
proof fn lemma_row_orders_len(row: Seq<u64>, account: nat, faucets: nat)
    ensures
        row_orders(row, account, faucets).len() <= faucets,
    decreases faucets,
{
    if faucets > 0 {
        lemma_row_orders_len(row, account, (faucets - 1) as nat);
    }
}

/// The mints of one account's row, in faucet order, skipping zero balances.
fn plan_row(row: &Vec<u64>, account: usize, num_faucets: usize) -> (r: Vec<MintOrder>)
    requires
        row@.len() >= num_faucets,
    ensures
        r@ == row_orders(row@, account as nat, num_faucets as nat),
{
    let mut out: Vec<MintOrder> = Vec::new();
    let mut f: usize = 0;
    while f < num_faucets
        invariant
            f <= num_faucets,
            row@.len() >= num_faucets,
            out@ == row_orders(row@, account as nat, f as nat),
        decreases num_faucets - f,
    {
        let amount = row[f];
        if amount != 0 {
            out.push(MintOrder { account, faucet: f, amount });
        }
        f = f + 1;
    }
    out
}

/// Which mints fund `num_accounts` accounts from `num_faucets` faucets, where
/// `balances[a][f]` is what faucet `f` mints for account `a`: one order per nonzero
/// balance, account by account, and within an account faucet by faucet.
pub fn mint_plan(balances: &Vec<Vec<u64>>, num_accounts: usize, num_faucets: usize) -> (r: Vec<
    MintOrder,
>)
    requires
        balances@.len() >= num_accounts,
        forall|a: int| 0 <= a < num_accounts ==> (#[trigger] balances@[a])@.len() >= num_faucets,
    ensures
        r@ == mint_orders(balances@, num_accounts as nat, num_faucets as nat),
{
    let mut out: Vec<MintOrder> = Vec::new();
    let mut a: usize = 0;
    while a < num_accounts
        invariant
            a <= num_accounts,
            balances@.len() >= num_accounts,
            forall|i: int| 0 <= i < num_accounts ==> (#[trigger] balances@[i])@.len() >= num_faucets,
            out@ == mint_orders(balances@, a as nat, num_faucets as nat),
        decreases num_accounts - a,
    {
        let mut row = plan_row(&balances[a], a, num_faucets);
        out.append(&mut row);
        a = a + 1;
    }
    out
}

/// How many minted notes each of the first `num_accounts` accounts should see: the number
/// of its nonzero balances.
pub fn expected_notes(balances: &Vec<Vec<u64>>, num_accounts: usize, num_faucets: usize) -> (r: Vec<
    usize,
>)
    requires
        balances@.len() >= num_accounts,
        forall|a: int| 0 <= a < num_accounts ==> (#[trigger] balances@[a])@.len() >= num_faucets,
    ensures
        r@.len() == num_accounts,
        forall|a: int|
            0 <= a < num_accounts ==> #[trigger] r@[a] == row_orders(
                balances@[a]@,
                a as nat,
                num_faucets as nat,
            ).len(),
{
    let mut out: Vec<usize> = Vec::new();
    let mut a: usize = 0;
    while a < num_accounts
        invariant
            a <= num_accounts,
            balances@.len() >= num_accounts,
            forall|i: int| 0 <= i < num_accounts ==> (#[trigger] balances@[i])@.len() >= num_faucets,
            out@.len() == a,
            forall|i: int|
                0 <= i < a ==> #[trigger] out@[i] == row_orders(
                    balances@[i]@,
                    i as nat,
                    num_faucets as nat,
                ).len(),
        decreases num_accounts - a,
    {
        let row = plan_row(&balances[a], a, num_faucets);
        proof {
            lemma_row_orders_len(balances@[a as int]@, a as nat, num_faucets as nat);
        }
        out.push(row.len());
        a = a + 1;
    }
    out
}

} // verus!
