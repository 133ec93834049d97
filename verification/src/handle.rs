//! Per-address monitors: grouping an address's coins by source variant,
//! precomputing display thresholds, and turning each tick's query outcome
//! into gauge writes.
//!
//! One monitor owns one address's polling loop.  The loop itself (timers and
//! network calls) runs at the process edge; everything the loop decides or
//! writes is here.
use vstd::prelude::*;

use crate::config::{
    coins_decimal_places_ok,
    coins_min_balances_parse,
    config_decimal_places_ok,
    config_min_balances_parse,
    Address,
    ChainConfig,
    Coin,
    CoinType,
    Config,
    MAX_DECIMAL_PLACE,
};
use crate::error::error_endpoint;
use crate::numeric::{
    from_atomics,
    from_atomics_spec,
    parse_u128,
    parses_as_u128,
    scale,
    scale_spec,
    u128_value,
};
use crate::query::{find_amount, lookup_amount, Balance, QueryOutcome};
use crate::telemetry::{
    account_balance_setter,
    account_query_status_setter,
    account_status_setter,
    MetricsState,
};

verus! {

/// One coin as a monitor carries it: the source coin's fields plus the
/// precomputed display denomination and display-scaled threshold.
pub struct CoinEntity {
    pub coin_type: CoinType,
    pub contract_address: Option<String>,
    pub decimal_place: u32,
    pub denom: String,
    pub display_denom: String,
    pub display_min_balance: String,
    pub min_balance: String,
}

impl CoinEntity {
    /// The threshold string parses, the exponent is in range, and the
    /// display threshold is the threshold scaled to display units.
    pub open spec fn wf(&self) -> bool {
        &&& parses_as_u128(self.min_balance@)
        &&& self.decimal_place <= MAX_DECIMAL_PLACE
        &&& self.display_min_balance@ == from_atomics_spec(self.min_balance@, self.decimal_place)
    }

    /// How an entity relates to the configured coin it was built from.
    pub open spec fn matches_coin(&self, c: Coin) -> bool {
        &&& self.coin_type == c.coin_type
        &&& (self.contract_address is Some <==> c.contract_address is Some)
        &&& (c.contract_address is Some ==> self.contract_address->0@ == c.contract_address->0@)
        &&& self.decimal_place == c.decimal_place
        &&& self.denom@ == c.denom@
        &&& self.display_denom@ == (if c.display_denom is Some {
            c.display_denom->0@
        } else {
            c.denom@
        })
        &&& self.min_balance@ == c.min_balance@
    }

    /// Builds the entity for one configured coin, precomputing its display
    /// denomination and display-scaled threshold.
    pub fn from_coin(c: &Coin) -> (r: CoinEntity)
        requires
            parses_as_u128(c.min_balance@),
            c.decimal_place <= MAX_DECIMAL_PLACE,
        ensures
            r.wf(),
            r.matches_coin(*c),
    {
        let display_min_balance = from_atomics(c.min_balance.as_str(), c.decimal_place);
        let display_denom = match &c.display_denom {
            Some(d) => d.clone(),
            None => c.denom.clone(),
        };
        let contract_address = match &c.contract_address {
            Some(a) => Some(a.clone()),
            None => None,
        };
        CoinEntity {
            coin_type: c.coin_type,
            contract_address,
            decimal_place: c.decimal_place,
            denom: c.denom.clone(),
            display_denom,
            display_min_balance,
            min_balance: c.min_balance.clone(),
        }
    }
}

/// The coins of one variant, in configuration order.
pub open spec fn matching_coins(coins: Seq<Coin>, t: CoinType) -> Seq<Coin>
    decreases coins.len(),
{
    if coins.len() == 0 {
        Seq::empty()
    } else if coins.last().coin_type == t {
        matching_coins(coins.drop_last(), t).push(coins.last())
    } else {
        matching_coins(coins.drop_last(), t)
    }
}

pub open spec fn entities_match(entities: Seq<CoinEntity>, coins: Seq<Coin>) -> bool {
    &&& entities.len() == coins.len()
    &&& forall|i: int|
        0 <= i < entities.len() ==> (#[trigger] entities[i]).wf() && entities[i].matches_coin(
            coins[i],
        )
}

/// An address's coins grouped by source variant, so one bulk query can serve
/// several denominations in one round trip.
pub struct CoinGroups {
    pub cosmos: Vec<CoinEntity>,
    pub cw20: Vec<CoinEntity>,
    pub evm: Vec<CoinEntity>,
}

impl CoinGroups {
    pub open spec fn matches(&self, coins: Seq<Coin>) -> bool {
        &&& entities_match(self.cosmos@, matching_coins(coins, CoinType::COSMOS))
        &&& entities_match(self.cw20@, matching_coins(coins, CoinType::CW20))
        &&& entities_match(self.evm@, matching_coins(coins, CoinType::EVM))
    }
}

/// Groups an address's coins by source variant, building each coin's entity.
#[verifier::loop_isolation(false)]
pub fn group_coins(coins: &Vec<Coin>) -> (r: CoinGroups)
    requires
        coins_min_balances_parse(coins@),
        coins_decimal_places_ok(coins@),
    ensures
        r.matches(coins@),
{
    let mut groups = CoinGroups { cosmos: Vec::new(), cw20: Vec::new(), evm: Vec::new() };
    let n: usize = coins.len();
    let mut i: usize = 0;
    while i < n
        invariant
            i <= n,
            groups.matches(coins@.take(i as int)),
        decreases n - i,
    {
        proof {
            assert(coins@.take(i + 1).drop_last() =~= coins@.take(i as int));
            assert(coins@.take(i + 1).last() == coins@[i as int]);
        }
        let entity = CoinEntity::from_coin(&coins[i]);
        match coins[i].coin_type {
            CoinType::COSMOS => groups.cosmos.push(entity),
            CoinType::CW20 => groups.cw20.push(entity),
            CoinType::EVM => groups.evm.push(entity),
        }
        i = i + 1;
    }
    proof {
        assert(coins@.take(n as int) =~= coins@);
    }
    groups
}

/// The monitor of one address: its chain's endpoints, its label values, and
/// its grouped coins.
pub struct Monitor {
    pub chain_id: String,
    /// The address as displayed: the secondary (hex) representation when one
    /// is configured, the address itself otherwise.
    pub address: String,
    pub role: String,
    /// The configured dashboard URL, or empty.
    pub balance_url: String,
    /// When set, the raw-balance gauge is not written.
    pub disable_balance: bool,
    /// Polling interval, in seconds.
    pub refresh: u64,
    pub grpc_addr: Option<String>,
    pub evm_addr: Option<String>,
    pub groups: CoinGroups,
}

/// How a monitor relates to the chain and address it was set up for.
pub open spec fn monitor_matches(
    m: Monitor,
    grpc_addr: Option<String>,
    evm_addr: Option<String>,
    chain_id: Seq<char>,
    a: Address,
) -> bool {
    &&& m.chain_id@ == chain_id
    &&& m.address@ == if a.hex_address is Some {
        a.hex_address->0@
    } else {
        a.address@
    }
    &&& m.role@ == a.role@
    &&& m.balance_url@ == if a.balance_url is Some {
        a.balance_url->0@
    } else {
        Seq::<char>::empty()
    }
    &&& m.disable_balance == (a.disable_balance == Some(true))
    &&& m.refresh == a.refresh
    &&& m.grpc_addr == grpc_addr
    &&& m.evm_addr == evm_addr
    &&& m.groups.matches(a.coins@)
}

impl Monitor {
    /// Every entity of every group is well formed.
    pub open spec fn wf(&self) -> bool {
        &&& forall|i: int|
            0 <= i < self.groups.cosmos@.len() ==> (#[trigger] self.groups.cosmos@[i]).wf()
        &&& forall|i: int|
            0 <= i < self.groups.cw20@.len() ==> (#[trigger] self.groups.cw20@[i]).wf()
        &&& forall|i: int| 0 <= i < self.groups.evm@.len() ==> (#[trigger] self.groups.evm@[i]).wf()
    }

    /// Sets one address monitor up: display address and label values,
    /// grouped coins, precomputed display thresholds.
    pub fn new(
        grpc_addr: Option<String>,
        evm_addr: Option<String>,
        chain_id: String,
        chain_address: &Address,
    ) -> (r: Monitor)
        requires
            coins_min_balances_parse(chain_address.coins@),
            coins_decimal_places_ok(chain_address.coins@),
        ensures
            monitor_matches(r, grpc_addr, evm_addr, chain_id@, *chain_address),
            r.wf(),
    {
        let address = match &chain_address.hex_address {
            Some(h) => h.clone(),
            None => chain_address.address.clone(),
        };
        let balance_url = match &chain_address.balance_url {
            Some(u) => u.clone(),
            None => String::new(),
        };
        let disable_balance = match chain_address.disable_balance {
            Some(b) => b,
            None => false,
        };
        let groups = group_coins(&chain_address.coins);
        Monitor {
            chain_id,
            address,
            role: chain_address.role.clone(),
            balance_url,
            disable_balance,
            refresh: chain_address.refresh,
            grpc_addr,
            evm_addr,
            groups,
        }
    }

    /// The balance gauge's label tuple for one coin.
    pub open spec fn balance_key(&self, e: CoinEntity) -> (
        Seq<char>,
        Seq<char>,
        Seq<char>,
        Seq<char>,
        Seq<char>,
    ) {
        (self.chain_id@, self.address@, e.display_denom@, self.role@, self.balance_url@)
    }

    /// The threshold-status gauge's label tuple for one coin.
    pub open spec fn status_key(&self, e: CoinEntity) -> (
        Seq<char>,
        Seq<char>,
        Seq<char>,
        Seq<char>,
        Seq<char>,
        Seq<char>,
    ) {
        (
            self.chain_id@,
            self.address@,
            e.display_denom@,
            e.display_min_balance@,
            self.role@,
            self.balance_url@,
        )
    }

    /// The query-status gauge's label tuple for one endpoint.
    pub open spec fn query_key(&self, endpoint: Seq<char>) -> (
        Seq<char>,
        Seq<char>,
        Seq<char>,
        Seq<char>,
        Seq<char>,
    ) {
        (self.chain_id@, self.address@, self.role@, self.balance_url@, endpoint)
    }
}

/// The threshold-status gauge's value, compared on atomic-unit integers: 1
/// when the balance is at or below the threshold, 0 when it is above.
pub open spec fn threshold_status(amount: int, min_balance: int) -> int {
    if amount <= min_balance {
        1
    } else {
        0
    }
}

/// A balance exactly equal to its threshold reads as at-or-below (status 1);
/// one atomic unit more reads as above (status 0).  The comparison is made
/// on atomic-unit integers, so no precision is lost at the boundary.
pub proof fn lemma_threshold_boundary(min_balance: u128)
    ensures
        threshold_status(min_balance as int, min_balance as int) == 1,
        threshold_status(min_balance as int + 1, min_balance as int) == 0,
{
}

/// The balance gauge's value for one coin: the display-scaled amount,
/// saturated to the gauge's 64-bit range.
pub open spec fn display_gauge_value(amount: u128, decimal_place: u32) -> int {
    let scaled = scale_spec(amount, decimal_place);
    if scaled > i64::MAX {
        i64::MAX as int
    } else {
        scaled
    }
}

/// The threshold-status family after one successful tick wrote the group's
/// coins in order.
pub open spec fn statuses_after(
    m0: Map<(Seq<char>, Seq<char>, Seq<char>, Seq<char>, Seq<char>, Seq<char>), int>,
    mon: Monitor,
    group: Seq<CoinEntity>,
    balances: Seq<Balance>,
) -> Map<(Seq<char>, Seq<char>, Seq<char>, Seq<char>, Seq<char>, Seq<char>), int>
    decreases group.len(),
{
    if group.len() == 0 {
        m0
    } else {
        statuses_after(m0, mon, group.drop_last(), balances).insert(
            mon.status_key(group.last()),
            threshold_status(
                lookup_amount(balances, group.last().denom@) as int,
                u128_value(group.last().min_balance@),
            ),
        )
    }
}

/// The balance family after one successful tick wrote the group's coins in
/// order.
pub open spec fn balances_after(
    m0: Map<(Seq<char>, Seq<char>, Seq<char>, Seq<char>, Seq<char>), int>,
    mon: Monitor,
    group: Seq<CoinEntity>,
    balances: Seq<Balance>,
) -> Map<(Seq<char>, Seq<char>, Seq<char>, Seq<char>, Seq<char>), int>
    decreases group.len(),
{
    if group.len() == 0 {
        m0
    } else {
        balances_after(m0, mon, group.drop_last(), balances).insert(
            mon.balance_key(group.last()),
            display_gauge_value(
                lookup_amount(balances, group.last().denom@),
                group.last().decimal_place,
            ),
        )
    }
}

impl Monitor {
    /// Applies one tick's outcome for one source-variant group.
    ///
    /// On failure, the query-status gauge for the failing endpoint is set to
    /// 1 and nothing else changes: stale balance and status values must not
    /// be misreported as zero balances.  On success, the query-status gauge
    /// is set to 0 and every coin of the group is resolved against the
    /// returned balances: a denomination the response does not carry counts
    /// as zero, the threshold is compared on atomic-unit integers, and the
    /// display-scaled balance is written unless this address disables the
    /// raw-balance gauge.
    #[verifier::loop_isolation(false)]
    pub fn apply_group_outcome(
        &self,
        metrics: &mut MetricsState,
        group: &Vec<CoinEntity>,
        outcome: &QueryOutcome,
    )
        requires
            old(metrics).wf(),
            forall|i: int| 0 <= i < group@.len() ==> (#[trigger] group@[i]).wf(),
        ensures
            final(metrics).wf(),
            match outcome {
                QueryOutcome::Failure { error } => {
                    &&& final(metrics).balance_map() == old(metrics).balance_map()
                    &&& final(metrics).status_map() == old(metrics).status_map()
                    &&& final(metrics).query_status_map() == old(metrics).query_status_map().insert(
                        self.query_key(error_endpoint(*error)),
                        1,
                    )
                },
                QueryOutcome::Success { balances, endpoint } => {
                    &&& final(metrics).query_status_map() == old(
                        metrics,
                    ).query_status_map().insert(self.query_key(endpoint@), 0)
                    &&& final(metrics).status_map() == statuses_after(
                        old(metrics).status_map(),
                        *self,
                        group@,
                        balances@,
                    )
                    &&& final(metrics).balance_map() == (if self.disable_balance {
                        old(metrics).balance_map()
                    } else {
                        balances_after(old(metrics).balance_map(), *self, group@, balances@)
                    })
                },
            },
    {
        match outcome {
            QueryOutcome::Failure { error } => {
                let endpoint = error.query_endpoint();
                account_query_status_setter(
                    metrics,
                    self.chain_id.as_str(),
                    self.address.as_str(),
                    self.role.as_str(),
                    self.balance_url.as_str(),
                    endpoint,
                    1,
                );
            },
            QueryOutcome::Success { balances, endpoint } => {
                account_query_status_setter(
                    metrics,
                    self.chain_id.as_str(),
                    self.address.as_str(),
                    self.role.as_str(),
                    self.balance_url.as_str(),
                    endpoint.as_str(),
                    0,
                );
                let ghost queries_set = metrics.query_status_map();
                let n: usize = group.len();
                let mut k: usize = 0;
                while k < n
                    invariant
                        k <= n,
                        metrics.wf(),
                        metrics.query_status_map() == queries_set,
                        metrics.status_map() == statuses_after(
                            old(metrics).status_map(),
                            *self,
                            group@.take(k as int),
                            balances@,
                        ),
                        metrics.balance_map() == (if self.disable_balance {
                            old(metrics).balance_map()
                        } else {
                            balances_after(
                                old(metrics).balance_map(),
                                *self,
                                group@.take(k as int),
                                balances@,
                            )
                        }),
                    decreases n - k,
                {
                    proof {
                        assert(group@.take(k + 1).drop_last() =~= group@.take(k as int));
                        assert(group@.take(k + 1).last() == group@[k as int]);
                    }
                    let entity = &group[k];
                    let amount: u128 = find_amount(balances, &entity.denom);
                    let min_balance: u128 = parse_u128(entity.min_balance.as_str()).unwrap();
                    let status: i64 = if amount <= min_balance {
                        1
                    } else {
                        0
                    };
                    account_status_setter(
                        metrics,
                        self.chain_id.as_str(),
                        self.address.as_str(),
                        entity.display_denom.as_str(),
                        entity.display_min_balance.as_str(),
                        self.role.as_str(),
                        self.balance_url.as_str(),
                        status,
                    );
                    if !self.disable_balance {
                        let scaled: u128 = scale(amount, entity.decimal_place);
                        let display_balance: i64 = if scaled > i64::MAX as u128 {
                            i64::MAX
                        } else {
                            scaled as i64
                        };
                        account_balance_setter(
                            metrics,
                            self.chain_id.as_str(),
                            self.address.as_str(),
                            entity.display_denom.as_str(),
                            self.role.as_str(),
                            self.balance_url.as_str(),
                            display_balance,
                        );
                    }
                    k = k + 1;
                }
                proof {
                    assert(group@.take(n as int) =~= group@);
                }
            },
        }
    }
}

/// The (chain, address) pairs of a configuration, in order: one per monitor.
pub open spec fn address_pairs(chains: Seq<ChainConfig>) -> Seq<(ChainConfig, Address)>
    decreases chains.len(),
{
    if chains.len() == 0 {
        Seq::empty()
    } else {
        address_pairs(chains.drop_last()) + Seq::new(
            chains.last().addresses@.len(),
            |j: int| (chains.last(), chains.last().addresses@[j]),
        )
    }
}

pub open spec fn monitor_matches_pair(m: Monitor, p: (ChainConfig, Address)) -> bool {
    monitor_matches(m, p.0.grpc_addr, p.0.evm_addr, p.0.id@, p.1)
}

fn clone_opt_string(o: &Option<String>) -> (r: Option<String>)
    ensures
        r == *o,
{
    match o {
        Some(s) => Some(s.clone()),
        None => None,
    }
}

/// Builds one monitor per configured address across all chains, each holding
/// its chain's endpoints and its address's full configuration.  The caller
/// runs one polling loop per monitor.
#[verifier::loop_isolation(false)]
pub fn monitors_for_config(config: &Config) -> (r: Vec<Monitor>)
    requires
        config_min_balances_parse(*config),
        config_decimal_places_ok(*config),
    ensures
        r@.len() == address_pairs(config.chains@).len(),
        forall|i: int|
            0 <= i < r@.len() ==> monitor_matches_pair(
                #[trigger] r@[i],
                address_pairs(config.chains@)[i],
            ) && r@[i].wf(),
{
    let mut out: Vec<Monitor> = Vec::new();
    let mut i: usize = 0;
    while i < config.chains.len()
        invariant
            i <= config.chains@.len(),
            out@.len() == address_pairs(config.chains@.take(i as int)).len(),
            forall|t: int|
                0 <= t < out@.len() ==> monitor_matches_pair(
                    #[trigger] out@[t],
                    address_pairs(config.chains@.take(i as int))[t],
                ) && out@[t].wf(),
        decreases config.chains@.len() - i,
    {
        let chain = &config.chains[i];
        let ghost base = address_pairs(config.chains@.take(i as int));
        let mut j: usize = 0;
        while j < chain.addresses.len()
            invariant
                j <= chain.addresses@.len(),
                out@.len() == base.len() + j,
                forall|t: int|
                    0 <= t < base.len() ==> monitor_matches_pair(#[trigger] out@[t], base[t])
                        && out@[t].wf(),
                forall|t: int|
                    base.len() <= t < out@.len() ==> monitor_matches(
                        #[trigger] out@[t],
                        chain.grpc_addr,
                        chain.evm_addr,
                        chain.id@,
                        chain.addresses@[t - base.len()],
                    ) && out@[t].wf(),
            decreases chain.addresses@.len() - j,
        {
            let monitor = Monitor::new(
                clone_opt_string(&chain.grpc_addr),
                clone_opt_string(&chain.evm_addr),
                chain.id.clone(),
                &chain.addresses[j],
            );
            out.push(monitor);
            j = j + 1;
        }
        proof {
            assert(config.chains@.take(i + 1).drop_last() =~= config.chains@.take(i as int));
            assert(config.chains@.take(i + 1).last() == config.chains@[i as int]);
            assert(address_pairs(config.chains@.take(i + 1)) == base + Seq::new(
                config.chains@[i as int].addresses@.len(),
                |j: int| (config.chains@[i as int], config.chains@[i as int].addresses@[j]),
            ));
        }
        i = i + 1;
    }
    proof {
        assert(config.chains@.take(config.chains@.len() as int) =~= config.chains@);
    }
    out
}

} // verus!
