use vstd::prelude::*;

verus! {

/// A 256-bit account identity.
#[derive(Clone, Copy, Debug, Eq)]
pub struct Key {
    pub bytes: [u8; 32],
}

impl PartialEq for Key {
    fn eq(&self, other: &Key) -> (r: bool) {
        let mut i: usize = 0;
        while i < 32
            invariant
                i <= 32,
                self.bytes@.len() == 32,
                other.bytes@.len() == 32,
                forall|j: int| 0 <= j < i ==> self.bytes@[j] == other.bytes@[j],
            decreases 32 - i,
        {
            if self.bytes[i] != other.bytes[i] {
                proof {
                    assert(self.bytes@[i as int] != other.bytes@[i as int]);
                    assert(self.bytes@ != other.bytes@);
                }
                return false;
            }
            i = i + 1;
        }
        proof {
            assert(self.bytes@ =~= other.bytes@);
            broadcast use vstd::array::axiom_array_ext_equal;
            assert(self.bytes == other.bytes);
        }
        true
    }
}

impl vstd::std_specs::cmp::PartialEqSpecImpl for Key {
    open spec fn obeys_eq_spec() -> bool {
        true
    }

    open spec fn eq_spec(&self, other: &Key) -> bool {
        *self == *other
    }
}

/// The single global record of the vault: who administers it, which asset backs
/// it, the fixed claim payout and the aggregate counters.
#[derive(Clone, Copy, Debug, PartialEq, Eq)]
pub struct Config {
    pub admin: Key,
    pub vault: Key,
    pub vault_bump: u8,
    pub xdegen_mint: Key,
    pub total_trades: u64,
    pub claim_amount: u64,
    pub total_buys: u64,
    pub total_sells: u64,
    pub total_claimed: u64,
    pub bump: u8,
}

impl Config {
    /// Every trade is either a buy or a sell.
    pub open spec fn wf(&self) -> bool {
        self.total_trades as int == self.total_buys as int + self.total_sells as int
    }

    /// The configuration after one more buy.
    pub open spec fn after_buy(self) -> Config {
        Config {
            total_trades: (self.total_trades + 1) as u64,
            total_buys: (self.total_buys + 1) as u64,
            ..self
        }
    }

    /// The configuration after one more sell.
    pub open spec fn after_sell(self) -> Config {
        Config {
            total_trades: (self.total_trades + 1) as u64,
            total_sells: (self.total_sells + 1) as u64,
            ..self
        }
    }

    /// Whether one more buy fits the counters.
    pub open spec fn buy_fits(self) -> bool {
        self.total_trades < u64::MAX && self.total_buys < u64::MAX
    }

    /// Whether one more sell fits the counters.
    pub open spec fn sell_fits(self) -> bool {
        self.total_trades < u64::MAX && self.total_sells < u64::MAX
    }
}

/// The descriptor of a new position asked for by a buy.
#[derive(Clone, Debug)]
pub struct TokenParams {
    pub name: String,
    pub symbol: String,
    pub decimals: u8,
    pub uri: String,
    pub supply: u64,
}

/// The descriptive data of a position asset.
#[derive(Clone, Debug)]
pub struct TokenMetadata {
    pub name: String,
    pub symbol: String,
    pub uri: String,
    pub decimals: u8,
}

/// The ledger entry of one (owner, position) pair.
#[derive(Clone, Debug)]
pub struct TokenRecord {
    pub mint: Key,
    pub owner: Key,
    pub balance: u64,
    pub metadata: TokenMetadata,
    pub created_at: i64,
    pub bump: u8,
}

impl TokenRecord {
    /// The same record holding another balance.
    pub open spec fn with_balance(self, balance: u64) -> TokenRecord {
        TokenRecord { balance, ..self }
    }
}

/// One change to the balance of a position.
#[derive(Clone, Copy, Debug, PartialEq, Eq, Structural)]
pub enum Flow {
    Minted(u64),
    Burned(u64),
}

/// The balance after one flow, or `None` where it leaves the range of `u64`.
pub open spec fn apply_flow(balance: int, f: Flow) -> Option<int> {
    let b = match f {
        Flow::Minted(a) => balance + a,
        Flow::Burned(a) => balance - a,
    };
    if 0 <= b <= u64::MAX {
        Some(b)
    } else {
        None
    }
}

/// The balance after a run of flows, or `None` where some step leaves the range.
pub open spec fn replay(balance: int, fs: Seq<Flow>) -> Option<int>
    decreases fs.len(),
{
    if fs.len() == 0 {
        Some(balance)
    } else {
        match apply_flow(balance, fs[0]) {
            Some(b) => replay(b, fs.drop_first()),
            None => None,
        }
    }
}

/// Everything minted minus everything burned in a run of flows.
pub open spec fn net_flow(fs: Seq<Flow>) -> int
    decreases fs.len(),
{
    if fs.len() == 0 {
        0
    } else {
        let d = match fs[0] {
            Flow::Minted(a) => a as int,
            Flow::Burned(a) => -(a as int),
        };
        d + net_flow(fs.drop_first())
    }
}

/// A position's balance is its opening supply plus all that was minted since,
/// minus all that was burned since, and it never goes below zero.
pub proof fn lemma_balance_is_net_flow(supply: u64, fs: Seq<Flow>)
    requires
        replay(supply as int, fs) is Some,
    ensures
        replay(supply as int, fs) == Some(supply + net_flow(fs)),
        0 <= supply + net_flow(fs) <= u64::MAX,
{
    lemma_replay_from(supply as int, fs);
}

/// Applying one more flow to the balance a run of flows left is replaying the
/// longer run: each sell or mint-more that goes through extends the replay.
pub proof fn lemma_replay_push(balance: int, fs: Seq<Flow>, f: Flow)
    requires
        replay(balance, fs) is Some,
    ensures
        replay(balance, fs.push(f)) == apply_flow(replay(balance, fs)->0, f),
    decreases fs.len(),
{
    let longer = fs.push(f);
    assert(longer[0] == if fs.len() == 0 { f } else { fs[0] });
    if fs.len() == 0 {
        assert(longer.drop_first() =~= Seq::<Flow>::empty());
        match apply_flow(balance, f) {
            Some(b) => assert(replay(b, longer.drop_first()) == Some(b)),
            None => {},
        }
    } else {
        let b = apply_flow(balance, fs[0])->0;
        assert(longer.drop_first() =~= fs.drop_first().push(f));
        lemma_replay_push(b, fs.drop_first(), f);
    }
}

proof fn lemma_replay_from(balance: int, fs: Seq<Flow>)
    requires
        0 <= balance <= u64::MAX,
        replay(balance, fs) is Some,
    ensures
        replay(balance, fs) == Some(balance + net_flow(fs)),
        0 <= balance + net_flow(fs) <= u64::MAX,
    decreases fs.len(),
{
    if fs.len() > 0 {
        let b = apply_flow(balance, fs[0])->0;
        lemma_replay_from(b, fs.drop_first());
    }
}

} // verus!
