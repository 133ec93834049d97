//! The validated chain configuration the watcher runs from.
//!
//! Endpoints are kept as plain strings and intervals as whole seconds; the
//! process edge that reads the configuration file converts into these types
//! before anything else runs.  The `check_*` functions are the validation
//! rules enforced at startup.
use vstd::prelude::*;

use crate::error::Error;
use crate::numeric::parses_as_u128;

verus! {

/// Default polling interval, in seconds.
pub fn refresh() -> (r: u64)
    ensures
        r == 120,
{
    120
}

/// Default balance-source variant.
pub fn coin_type() -> (r: CoinType)
    ensures
        r == CoinType::COSMOS,
{
    CoinType::COSMOS
}

/// Default decimal-place exponent.
pub fn decimal_place() -> (r: u32)
    ensures
        r == 6,
{
    6
}

pub struct Config {
    pub prometheus: PrometheusConfig,
    pub chains: Vec<ChainConfig>,
}

/// The chain a by-id map of the chains would hold for `id`: the last one
/// with that identifier, later entries overwriting earlier ones.
pub open spec fn chain_with_id(chains: Seq<ChainConfig>, id: Seq<char>) -> Option<ChainConfig>
    decreases chains.len(),
{
    if chains.len() == 0 {
        None
    } else if chains.last().id@ == id {
        Some(chains.last())
    } else {
        chain_with_id(chains.drop_last(), id)
    }
}

impl Config {
    /// Looks a chain up by its identifier, as a map keyed by chain id
    /// would: the last chain with that id wins.
    pub fn chain_by_id<'a>(&'a self, id: &String) -> (r: Option<&'a ChainConfig>)
        ensures
            match r {
                Some(chain) => chain_with_id(self.chains@, id@) == Some(*chain),
                None => chain_with_id(self.chains@, id@) is None,
            },
    {
        let mut i: usize = self.chains.len();
        proof {
            assert(self.chains@.take(i as int) =~= self.chains@);
        }
        while i > 0
            invariant
                i <= self.chains@.len(),
                chain_with_id(self.chains@, id@) == chain_with_id(
                    self.chains@.take(i as int),
                    id@,
                ),
            decreases i,
        {
            i = i - 1;
            proof {
                assert(self.chains@.take(i + 1).drop_last() =~= self.chains@.take(i as int));
                assert(self.chains@.take(i + 1).last() == self.chains@[i as int]);
            }
            if self.chains[i].id == *id {
                return Some(&self.chains[i]);
            }
        }
        proof {
            assert(self.chains@.take(0) =~= Seq::<ChainConfig>::empty());
        }
        None
    }
}

pub struct PrometheusConfig {
    pub host: String,
    pub port: i32,
    /// Optional bulk-reset interval for the metrics state, in seconds.
    pub reset: Option<u64>,
}

impl Default for PrometheusConfig {
    fn default() -> (r: Self)
        ensures
            r.host@ == "0.0.0.0"@,
            r.port == 9090,
            r.reset is None,
    {
        PrometheusConfig { host: String::from_str("0.0.0.0"), port: 9090, reset: None }
    }
}

pub struct ChainConfig {
    pub id: String,
    /// Ledger gRPC-style endpoint, if the chain has one.
    pub grpc_addr: Option<String>,
    /// EVM JSON-RPC-style endpoint, if the chain has one.
    pub evm_addr: Option<String>,
    pub addresses: Vec<Address>,
}

pub struct Address {
    pub address: String,
    /// Optional secondary (hex) representation, preferred for display.
    pub hex_address: Option<String>,
    pub role: String,
    pub disable_balance: Option<bool>,
    pub balance_url: Option<String>,
    /// Polling interval, in seconds.
    pub refresh: u64,
    pub coins: Vec<Coin>,
}

pub struct Coin {
    /// Minimum balance in atomic units, as a decimal string: it may exceed
    /// the range of a 64-bit integer.
    pub min_balance: String,
    pub denom: String,
    pub display_denom: Option<String>,
    /// Required exactly for the CW20 variant.
    pub contract_address: Option<String>,
    pub decimal_place: u32,
    pub coin_type: CoinType,
}

#[derive(Clone, Copy, Debug, PartialEq, Eq, Hash, Structural)]
pub enum CoinType {
    COSMOS,
    CW20,
    EVM,
}

/// Every coin's minimum balance parses as a `u128`.
pub open spec fn coins_min_balances_parse(coins: Seq<Coin>) -> bool {
    forall|k: int| 0 <= k < coins.len() ==> parses_as_u128(#[trigger] coins[k].min_balance@)
}

pub open spec fn chain_min_balances_parse(chain: ChainConfig) -> bool {
    forall|j: int|
        0 <= j < chain.addresses@.len() ==> coins_min_balances_parse(
            #[trigger] chain.addresses@[j].coins@,
        )
}

pub open spec fn config_min_balances_parse(config: Config) -> bool {
    forall|i: int|
        0 <= i < config.chains@.len() ==> chain_min_balances_parse(#[trigger] config.chains@[i])
}

/// How many of the coins use the EVM variant.
pub open spec fn evm_coin_count(coins: Seq<Coin>) -> nat
    decreases coins.len(),
{
    if coins.len() == 0 {
        0
    } else {
        evm_coin_count(coins.drop_last()) + if coins.last().coin_type == CoinType::EVM {
            1nat
        } else {
            0nat
        }
    }
}

/// An address holds one native EVM balance, not a set of denominations, so at
/// most one of its coins may use the EVM variant.
pub open spec fn address_single_evm(address: Address) -> bool {
    evm_coin_count(address.coins@) <= 1
}

pub open spec fn chain_single_evm(chain: ChainConfig) -> bool {
    forall|j: int|
        0 <= j < chain.addresses@.len() ==> address_single_evm(#[trigger] chain.addresses@[j])
}

pub open spec fn config_single_evm(config: Config) -> bool {
    forall|i: int|
        0 <= i < config.chains@.len() ==> chain_single_evm(#[trigger] config.chains@[i])
}

/// Address (i, j) breaks the single-EVM rule and every address before it,
/// in chain order then address order, satisfies it.
pub open spec fn first_evm_violation(config: Config, i: int, j: int) -> bool {
    &&& 0 <= i < config.chains@.len()
    &&& 0 <= j < config.chains@[i].addresses@.len()
    &&& !address_single_evm(config.chains@[i].addresses@[j])
    &&& forall|t: int| 0 <= t < i ==> chain_single_evm(#[trigger] config.chains@[t])
    &&& forall|t: int| 0 <= t < j ==> address_single_evm(#[trigger] config.chains@[i].addresses@[t])
}

/// The largest decimal-place exponent a coin may configure.
pub const MAX_DECIMAL_PLACE: u32 = 18;

pub open spec fn coins_decimal_places_ok(coins: Seq<Coin>) -> bool {
    forall|k: int| 0 <= k < coins.len() ==> (#[trigger] coins[k].decimal_place) <= MAX_DECIMAL_PLACE
}

pub open spec fn chain_decimal_places_ok(chain: ChainConfig) -> bool {
    forall|j: int|
        0 <= j < chain.addresses@.len() ==> coins_decimal_places_ok(
            #[trigger] chain.addresses@[j].coins@,
        )
}

pub open spec fn config_decimal_places_ok(config: Config) -> bool {
    forall|i: int|
        0 <= i < config.chains@.len() ==> chain_decimal_places_ok(#[trigger] config.chains@[i])
}

pub open spec fn coins_cw20_contracts_ok(coins: Seq<Coin>) -> bool {
    forall|k: int|
        0 <= k < coins.len() ==> ((#[trigger] coins[k].coin_type) == CoinType::CW20
            ==> coins[k].contract_address is Some)
}

pub open spec fn chain_cw20_contracts_ok(chain: ChainConfig) -> bool {
    forall|j: int|
        0 <= j < chain.addresses@.len() ==> coins_cw20_contracts_ok(
            #[trigger] chain.addresses@[j].coins@,
        )
}

pub open spec fn config_cw20_contracts_ok(config: Config) -> bool {
    forall|i: int|
        0 <= i < config.chains@.len() ==> chain_cw20_contracts_ok(#[trigger] config.chains@[i])
}

fn coins_parse_ok(coins: &Vec<Coin>) -> (r: bool)
    ensures
        r == coins_min_balances_parse(coins@),
{
    let mut k: usize = 0;
    while k < coins.len()
        invariant
            k <= coins@.len(),
            forall|t: int| 0 <= t < k ==> parses_as_u128(#[trigger] coins@[t].min_balance@),
        decreases coins@.len() - k,
    {
        if crate::numeric::parse_u128(coins[k].min_balance.as_str()).is_none() {
            return false;
        }
        k = k + 1;
    }
    true
}

/// Checks that every configured minimum balance is a decimal string that a
/// `u128` can hold; rejected strings would otherwise only fail once a
/// threshold comparison needs them.
#[verifier::loop_isolation(false)]
pub fn check_parse_u128(config: Config) -> (r: Result<(), Error>)
    ensures
        r is Ok <==> config_min_balances_parse(config),
        r is Err ==> r->Err_0 == Error::ConfigParseU128,
{
    let mut i: usize = 0;
    while i < config.chains.len()
        invariant
            i <= config.chains@.len(),
            forall|t: int| 0 <= t < i ==> chain_min_balances_parse(#[trigger] config.chains@[t]),
        decreases config.chains@.len() - i,
    {
        let chain = &config.chains[i];
        let mut j: usize = 0;
        while j < chain.addresses.len()
            invariant
                j <= chain.addresses@.len(),
                forall|t: int|
                    0 <= t < j ==> coins_min_balances_parse(#[trigger] chain.addresses@[t].coins@),
            decreases chain.addresses@.len() - j,
        {
            if !coins_parse_ok(&chain.addresses[j].coins) {
                proof {
                    assert(!coins_min_balances_parse(
                        config.chains@[i as int].addresses@[j as int].coins@,
                    ));
                    assert(!chain_min_balances_parse(config.chains@[i as int]));
                }
                return Err(Error::ConfigParseU128);
            }
            j = j + 1;
        }
        i = i + 1;
    }
    Ok(())
}

fn address_evm_count(address: &Address) -> (r: usize)
    ensures
        r == evm_coin_count(address.coins@),
{
    let mut count: usize = 0;
    let mut k: usize = 0;
    while k < address.coins.len()
        invariant
            k <= address.coins@.len(),
            count == evm_coin_count(address.coins@.take(k as int)),
            count <= k,
        decreases address.coins@.len() - k,
    {
        proof {
            assert(address.coins@.take(k + 1).drop_last() =~= address.coins@.take(k as int));
        }
        if matches!(address.coins[k].coin_type, CoinType::EVM) {
            count = count + 1;
        }
        k = k + 1;
    }
    proof {
        assert(address.coins@.take(address.coins@.len() as int) =~= address.coins@);
    }
    count
}

/// Rejects any configuration in which some address lists more than one
/// EVM-variant coin; the error names the first such address.
#[verifier::loop_isolation(false)]
pub fn check_single_evm_coin_type_in_address(config: Config) -> (r: Result<(), Error>)
    ensures
        r is Ok <==> config_single_evm(config),
        r is Err ==> {
            &&& r->Err_0 is ConfigSingleEvmCoinTypeInAddress
            &&& exists|i: int, j: int|
                #[trigger] first_evm_violation(config, i, j)
                    && config.chains@[i].addresses@[j].address@
                    == r->Err_0->ConfigSingleEvmCoinTypeInAddress_address@
        },
{
    let mut i: usize = 0;
    while i < config.chains.len()
        invariant
            i <= config.chains@.len(),
            forall|t: int| 0 <= t < i ==> chain_single_evm(#[trigger] config.chains@[t]),
        decreases config.chains@.len() - i,
    {
        let chain = &config.chains[i];
        let mut j: usize = 0;
        while j < chain.addresses.len()
            invariant
                j <= chain.addresses@.len(),
                forall|t: int| 0 <= t < j ==> address_single_evm(#[trigger] chain.addresses@[t]),
            decreases chain.addresses@.len() - j,
        {
            if address_evm_count(&chain.addresses[j]) > 1 {
                proof {
                    assert(!address_single_evm(config.chains@[i as int].addresses@[j as int]));
                    assert(!chain_single_evm(config.chains@[i as int]));
                    assert(first_evm_violation(config, i as int, j as int));
                }
                return Err(
                    Error::ConfigSingleEvmCoinTypeInAddress {
                        address: chain.addresses[j].address.clone(),
                    },
                );
            }
            j = j + 1;
        }
        i = i + 1;
    }
    Ok(())
}

fn coins_decimals_ok(coins: &Vec<Coin>) -> (r: bool)
    ensures
        r == coins_decimal_places_ok(coins@),
{
    let mut k: usize = 0;
    while k < coins.len()
        invariant
            k <= coins@.len(),
            forall|t: int| 0 <= t < k ==> (#[trigger] coins@[t].decimal_place) <= MAX_DECIMAL_PLACE,
        decreases coins@.len() - k,
    {
        if coins[k].decimal_place > MAX_DECIMAL_PLACE {
            return false;
        }
        k = k + 1;
    }
    true
}

/// Rejects any configuration in which some coin asks for more decimal places
/// than `MAX_DECIMAL_PLACE`.
#[verifier::loop_isolation(false)]
pub fn check_decimal_place(config: Config) -> (r: Result<(), Error>)
    ensures
        r is Ok <==> config_decimal_places_ok(config),
        r is Err ==> r->Err_0 == (Error::ConfigDecimalExceed { decimal: MAX_DECIMAL_PLACE }),
{
    let mut i: usize = 0;
    while i < config.chains.len()
        invariant
            i <= config.chains@.len(),
            forall|t: int| 0 <= t < i ==> chain_decimal_places_ok(#[trigger] config.chains@[t]),
        decreases config.chains@.len() - i,
    {
        let chain = &config.chains[i];
        let mut j: usize = 0;
        while j < chain.addresses.len()
            invariant
                j <= chain.addresses@.len(),
                forall|t: int|
                    0 <= t < j ==> coins_decimal_places_ok(#[trigger] chain.addresses@[t].coins@),
            decreases chain.addresses@.len() - j,
        {
            if !coins_decimals_ok(&chain.addresses[j].coins) {
                proof {
                    assert(!coins_decimal_places_ok(
                        config.chains@[i as int].addresses@[j as int].coins@,
                    ));
                    assert(!chain_decimal_places_ok(config.chains@[i as int]));
                }
                return Err(Error::ConfigDecimalExceed { decimal: MAX_DECIMAL_PLACE });
            }
            j = j + 1;
        }
        i = i + 1;
    }
    Ok(())
}

fn coins_contracts_ok(coins: &Vec<Coin>) -> (r: bool)
    ensures
        r == coins_cw20_contracts_ok(coins@),
{
    let mut k: usize = 0;
    while k < coins.len()
        invariant
            k <= coins@.len(),
            forall|t: int|
                0 <= t < k ==> ((#[trigger] coins@[t].coin_type) == CoinType::CW20
                    ==> coins@[t].contract_address is Some),
        decreases coins@.len() - k,
    {
        if matches!(coins[k].coin_type, CoinType::CW20) && coins[k].contract_address.is_none() {
            return false;
        }
        k = k + 1;
    }
    true
}

/// Rejects any configuration in which a CW20-variant coin is missing its
/// contract address.
#[verifier::loop_isolation(false)]
pub fn check_cw20_contract_address(config: Config) -> (r: Result<(), Error>)
    ensures
        r is Ok <==> config_cw20_contracts_ok(config),
        r is Err ==> r->Err_0 == Error::ConfigMissingCW20ContractAddress,
{
    let mut i: usize = 0;
    while i < config.chains.len()
        invariant
            i <= config.chains@.len(),
            forall|t: int| 0 <= t < i ==> chain_cw20_contracts_ok(#[trigger] config.chains@[t]),
        decreases config.chains@.len() - i,
    {
        let chain = &config.chains[i];
        let mut j: usize = 0;
        while j < chain.addresses.len()
            invariant
                j <= chain.addresses@.len(),
                forall|t: int|
                    0 <= t < j ==> coins_cw20_contracts_ok(#[trigger] chain.addresses@[t].coins@),
            decreases chain.addresses@.len() - j,
        {
            if !coins_contracts_ok(&chain.addresses[j].coins) {
                proof {
                    assert(!coins_cw20_contracts_ok(
                        config.chains@[i as int].addresses@[j as int].coins@,
                    ));
                    assert(!chain_cw20_contracts_ok(config.chains@[i as int]));
                }
                return Err(Error::ConfigMissingCW20ContractAddress);
            }
            j = j + 1;
        }
        i = i + 1;
    }
    Ok(())
}

} // verus!
