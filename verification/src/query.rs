//! Balance queries: the pagination walker for bulk ledger queries, the
//! projection and decoding of query responses into plain balances, and the
//! per-variant query plans the transport edge executes.
//!
//! The library never opens a connection itself.  It says which endpoint to
//! ask and with which request, absorbs the responses, and decides what they
//! mean; the transport edge only moves bytes.
use vstd::prelude::*;

use crate::config::CoinType;
use crate::error::{error_endpoint, Error};
use crate::handle::CoinEntity;
use crate::numeric::{parses_as_u128, u128_value};

verus! {

/// One (denomination, amount) pair exactly as a ledger response carries it:
/// the amount is still a decimal string.
#[derive(Debug)]
pub struct RawBalance {
    pub denom: String,
    pub amount: String,
}

/// One (denomination, amount) pair with the amount read into atomic units.
#[derive(Debug)]
pub struct Balance {
    pub denom: String,
    pub amount: u128,
}

/// One page request of a bulk balance query.
#[derive(Debug)]
pub struct PageRequest {
    /// Continuation key; empty on the first request.
    pub key: Vec<u8>,
    pub offset: u64,
    pub limit: u64,
    pub count_total: bool,
    pub reverse: bool,
}

/// One page of a bulk balance response: its entries, and the continuation
/// key if the response carried one.
#[derive(Debug)]
pub struct BalancePage {
    pub balances: Vec<RawBalance>,
    pub next_key: Option<Vec<u8>>,
}

/// What one absorbed page means for the walk.
#[derive(Clone, Copy, Debug, PartialEq, Eq, Structural)]
pub enum PageStep {
    /// The server returned a continuation key and new entries: request the
    /// next page with that key.
    Continue,
    /// The server returned no continuation key, or an empty one: the
    /// enumeration is exhausted.
    Done,
    /// The server returned a continuation key but no entries: it is failing
    /// to make progress, and the walk treats that as a protocol error rather
    /// than requesting pages forever.
    Stalled,
}

/// The pages seen so far, in order, concatenated.
pub open spec fn concat_pages(pages: Seq<Seq<RawBalance>>) -> Seq<RawBalance>
    decreases pages.len(),
{
    if pages.len() == 0 {
        Seq::empty()
    } else {
        concat_pages(pages.drop_last()) + pages.last()
    }
}

/// A walk over the pages of one bulk balance query.  Entries accumulate
/// across pages; the walk ends when the server stops returning a
/// continuation key.
pub struct BalanceWalk {
    /// Every entry of every page absorbed so far, each exactly once, in the
    /// order the server yielded them.
    pub entries: Vec<RawBalance>,
    /// Continuation key for the next request.
    pub next_key: Vec<u8>,
    /// The pages absorbed so far.
    pub pages: Ghost<Seq<Seq<RawBalance>>>,
}

impl BalanceWalk {
    /// The accumulated entries are the concatenation of the absorbed pages.
    pub open spec fn wf(&self) -> bool {
        self.entries@ == concat_pages(self.pages@)
    }

    /// Starts a walk: no entries, empty continuation key.
    pub fn new() -> (r: Self)
        ensures
            r.wf(),
            r.pages@.len() == 0,
            r.entries@.len() == 0,
            r.next_key@.len() == 0,
    {
        BalanceWalk { entries: Vec::new(), next_key: Vec::new(), pages: Ghost(Seq::empty()) }
    }

    /// The request for the next page: page size 100, reverse order, total
    /// count requested, continuing from the current key.
    pub fn next_request(&self) -> (r: PageRequest)
        ensures
            r.key@ == self.next_key@,
            r.offset == 0,
            r.limit == 100,
            r.count_total,
            r.reverse,
    {
        PageRequest {
            key: self.next_key.clone(),
            offset: 0,
            limit: 100,
            count_total: true,
            reverse: true,
        }
    }

    /// Absorbs one page: appends its entries and decides whether the walk
    /// continues, is exhausted, or has stalled.
    pub fn absorb_page(&mut self, page: BalancePage) -> (r: PageStep)
        requires
            old(self).wf(),
        ensures
            final(self).wf(),
            final(self).pages@ == old(self).pages@.push(page.balances@),
            final(self).entries@ == old(self).entries@ + page.balances@,
            (r == PageStep::Done) == (page.next_key is None || page.next_key->0@.len() == 0),
            (r == PageStep::Stalled) == (page.next_key is Some && page.next_key->0@.len() > 0
                && page.balances@.len() == 0),
            (r == PageStep::Continue) == (page.next_key is Some && page.next_key->0@.len() > 0
                && page.balances@.len() > 0),
            r == PageStep::Continue ==> final(self).next_key@ == page.next_key->0@,
    {
        let BalancePage { mut balances, next_key } = page;
        let ghost page_view = balances@;
        let got_entries: bool = balances.len() > 0;
        self.entries.append(&mut balances);
        proof {
            self.pages@ = self.pages@.push(page_view);
            assert(self.pages@.drop_last() =~= old(self).pages@);
            assert(self.entries@ =~= concat_pages(self.pages@));
        }
        match next_key {
            None => PageStep::Done,
            Some(key) => {
                if key.len() == 0 {
                    PageStep::Done
                } else if got_entries {
                    self.next_key = key;
                    PageStep::Continue
                } else {
                    PageStep::Stalled
                }
            },
        }
    }
}

/// The first amount recorded for a denomination, or zero when the
/// denomination is absent; denominations are unique in a ledger response, so
/// this is a set lookup.
pub open spec fn lookup_amount(balances: Seq<Balance>, denom: Seq<char>) -> u128
    decreases balances.len(),
{
    if balances.len() == 0 {
        0
    } else if balances[0].denom@ == denom {
        balances[0].amount
    } else {
        lookup_amount(balances.drop_first(), denom)
    }
}

/// Projects one denomination out of a bulk response; a requested
/// denomination the response does not carry means a balance of zero.
pub fn find_amount(balances: &Vec<Balance>, denom: &String) -> (r: u128)
    ensures
        r == lookup_amount(balances@, denom@),
{
    let n: usize = balances.len();
    let mut i: usize = 0;
    proof {
        assert(balances@.skip(0) =~= balances@);
    }
    while i < n
        invariant
            n == balances@.len(),
            i <= n,
            lookup_amount(balances@, denom@) == lookup_amount(balances@.skip(i as int), denom@),
        decreases n - i,
    {
        proof {
            assert(balances@.skip(i as int)[0] == balances@[i as int]);
            assert(balances@.skip(i as int).drop_first() =~= balances@.skip(i + 1));
        }
        if balances[i].denom == *denom {
            return balances[i].amount;
        }
        i = i + 1;
    }
    proof {
        assert(balances@.skip(n as int) =~= Seq::<Balance>::empty());
    }
    0
}

/// Reads every amount of a raw response into atomic units.  An amount the
/// ledger reports that no `u128` can hold is a protocol failure for the
/// whole query.
pub fn parse_balances(raw: &Vec<RawBalance>, endpoint: &str) -> (r: Result<Vec<Balance>, Error>)
    ensures
        r is Ok <==> (forall|i: int|
            0 <= i < raw@.len() ==> parses_as_u128((#[trigger] raw@[i]).amount@)),
        r is Ok ==> {
            &&& r->Ok_0@.len() == raw@.len()
            &&& forall|i: int|
                0 <= i < raw@.len() ==> {
                    &&& (#[trigger] r->Ok_0@[i]).denom@ == raw@[i].denom@
                    &&& r->Ok_0@[i].amount as int == u128_value(raw@[i].amount@)
                }
        },
        r is Err ==> r->Err_0 is QueryError && r->Err_0->QueryError_endpoint@ == endpoint@,
{
    let n: usize = raw.len();
    let mut out: Vec<Balance> = Vec::new();
    let mut i: usize = 0;
    while i < n
        invariant
            n == raw@.len(),
            i <= n,
            out@.len() == i,
            forall|t: int|
                0 <= t < i ==> {
                    &&& parses_as_u128((#[trigger] raw@[t]).amount@)
                    &&& out@[t].denom@ == raw@[t].denom@
                    &&& out@[t].amount as int == u128_value(raw@[t].amount@)
                },
        decreases n - i,
    {
        match crate::numeric::parse_u128(raw[i].amount.as_str()) {
            Some(amount) => {
                out.push(Balance { denom: raw[i].denom.clone(), amount });
            },
            None => {
                return Err(
                    Error::QueryError {
                        source: String::from_str("balance amount does not fit in a u128"),
                        endpoint: endpoint.to_owned(),
                    },
                );
            },
        }
        i = i + 1;
    }
    Ok(out)
}

/// Resolves a single-denomination ledger response: the ledger either returns
/// the balance pair or nothing at all for the denomination.
pub fn cosmos_balance_from_response(balance: Option<RawBalance>, denom: &String) -> (r: Result<
    String,
    Error,
>)
    ensures
        balance is Some ==> r is Ok && r->Ok_0@ == balance->0.amount@,
        balance is None ==> r is Err && r->Err_0 is GetCosmosBalance
            && r->Err_0->GetCosmosBalance_denom@ == denom@,
{
    match balance {
        Some(coin) => Ok(coin.amount),
        None => Err(Error::GetCosmosBalance { denom: denom.clone() }),
    }
}

/// The JSON encoding of the CW20 "balance of `addr`" query, a function of
/// the holder address alone.
pub uninterp spec fn cw20_query_payload(addr: Seq<char>) -> Seq<u8>;

/// Relies on serde_json::to_vec applied to cw20::Cw20QueryMsg::Balance: the
/// encoder reads nothing but the message, so the bytes it produces are a
/// function of the holder address alone; and serializing this message never
/// fails, since it writes into a vector and the derived serialization of a
/// one-string-field variant has no error path.
#[verifier::external_body]
fn encode_cw20_balance_query(address: &String) -> (r: Option<Vec<u8>>)
    ensures
        r is Some,
        r->0@ == cw20_query_payload(address@),
{
    serde_json::to_vec(&cw20::Cw20QueryMsg::Balance { address: address.clone() }).ok()
}

/// Whether some bytes decode as a CW20 balance response, and the balance
/// they carry, as a function of the bytes alone.
pub uninterp spec fn cw20_balance_of(data: Seq<u8>) -> Option<u128>;

/// Relies on serde_json::from_slice::<cw20::BalanceResponse>: decoding
/// depends on the bytes alone; the balance field is a 128-bit unsigned
/// integer.
#[verifier::external_body]
fn decode_cw20_balance_response(data: &Vec<u8>) -> (r: Option<u128>)
    ensures
        r == cw20_balance_of(data@),
{
    match serde_json::from_slice::<cw20::BalanceResponse>(data.as_slice()) {
        Ok(resp) => Some(resp.balance.u128()),
        Err(_) => None,
    }
}

/// A read-only smart-contract state query: which contract to ask, and the
/// encoded query payload.
#[derive(Debug)]
pub struct SmartContractQuery {
    pub contract_address: String,
    pub query_data: Vec<u8>,
}

/// Builds the "balance of `holder`" state query for one CW20 contract.
pub fn cw20_state_request(contract_address: &String, holder: &String) -> (r: SmartContractQuery)
    ensures
        r.contract_address@ == contract_address@,
        r.query_data@ == cw20_query_payload(holder@),
{
    let query_data = encode_cw20_balance_query(holder).unwrap();
    SmartContractQuery { contract_address: contract_address.clone(), query_data }
}

/// Reads the balance out of a CW20 smart-contract state response; bytes that
/// do not decode are a protocol failure.
pub fn cw20_balance_from_response(data: &Vec<u8>, endpoint: &str) -> (r: Result<u128, Error>)
    ensures
        r is Ok <==> cw20_balance_of(data@) is Some,
        r is Ok ==> Some(r->Ok_0) == cw20_balance_of(data@),
        r is Err ==> r->Err_0 is QueryError && r->Err_0->QueryError_endpoint@ == endpoint@,
{
    match decode_cw20_balance_response(data) {
        Some(amount) => Ok(amount),
        None => Err(
            Error::QueryError {
                source: String::from_str("could not decode CW20 balance response"),
                endpoint: endpoint.to_owned(),
            },
        ),
    }
}

/// What the transport edge must do for one single-denomination balance
/// query.
#[derive(Debug)]
pub enum SingleQueryPlan {
    /// Ask this ledger endpoint for one denomination's balance.
    Cosmos { endpoint: String, denom: String },
    /// Send this smart-contract state query to this ledger endpoint.
    Cw20 { endpoint: String, request: SmartContractQuery },
    /// Ask this EVM endpoint for the account's native balance.
    Evm { endpoint: String },
}

/// What the transport edge must do for one source-variant group in one tick.
#[derive(Debug)]
pub enum QueryPlan {
    /// Walk the paginated bulk balance query at this ledger endpoint.
    CosmosBulk { endpoint: String },
    /// Issue one smart-contract state query per coin, in order, at this
    /// ledger endpoint.
    Cw20 { endpoint: String, requests: Vec<SmartContractQuery> },
    /// Ask this EVM endpoint for the account's native balance.
    Evm { endpoint: String },
}

/// The outcome of one query cycle for one source-variant group.
#[derive(Debug)]
pub enum QueryOutcome {
    /// The balances that came back, and the endpoint that served them.
    Success { balances: Vec<Balance>, endpoint: String },
    /// Any transport or protocol failure, normalized.
    Failure { error: Error },
}

impl CoinType {
    /// Decides how one coin of this variant is queried for a single
    /// denomination: which endpoint, and with which request.  A missing
    /// endpoint or contract address surfaces as a query failure.
    pub fn get_balance_plan(
        &self,
        address: &String,
        denom: &String,
        contract_address: &Option<String>,
        grpc_addr: &Option<String>,
        evm_addr: &Option<String>,
    ) -> (r: Result<SingleQueryPlan, Error>)
        ensures
            r is Err ==> r->Err_0 is QueryError,
            *self == CoinType::COSMOS ==> match r {
                Ok(plan) => grpc_addr is Some && (plan matches SingleQueryPlan::Cosmos {
                    endpoint,
                    denom: d,
                } && endpoint@ == grpc_addr->0@ && d@ == denom@),
                Err(_) => grpc_addr is None,
            },
            *self == CoinType::EVM ==> match r {
                Ok(plan) => evm_addr is Some && (plan matches SingleQueryPlan::Evm { endpoint }
                    && endpoint@ == evm_addr->0@),
                Err(_) => evm_addr is None,
            },
            *self == CoinType::CW20 ==> match r {
                Ok(plan) => grpc_addr is Some && contract_address is Some && (plan
                    matches SingleQueryPlan::Cw20 { endpoint, request } && endpoint@
                    == grpc_addr->0@ && request.contract_address@ == contract_address->0@
                    && request.query_data@ == cw20_query_payload(address@)),
                Err(_) => grpc_addr is None || contract_address is None,
            },
    {
        match *self {
            CoinType::COSMOS => {
                match grpc_addr {
                    Some(endpoint) => Ok(
                        SingleQueryPlan::Cosmos {
                            endpoint: endpoint.clone(),
                            denom: denom.clone(),
                        },
                    ),
                    None => Err(missing_endpoint_error()),
                }
            },
            CoinType::EVM => {
                match evm_addr {
                    Some(endpoint) => Ok(SingleQueryPlan::Evm { endpoint: endpoint.clone() }),
                    None => Err(missing_endpoint_error()),
                }
            },
            CoinType::CW20 => {
                match grpc_addr {
                    Some(endpoint) => {
                        match contract_address {
                            Some(contract) => Ok(
                                SingleQueryPlan::Cw20 {
                                    endpoint: endpoint.clone(),
                                    request: cw20_state_request(contract, address),
                                },
                            ),
                            None => Err(
                                Error::QueryError {
                                    source: String::from_str("CW20 coin has no contract address"),
                                    endpoint: endpoint.clone(),
                                },
                            ),
                        }
                    },
                    None => Err(missing_endpoint_error()),
                }
            },
        }
    }

    /// Decides how a group of coins sharing this variant is queried: which
    /// endpoint, and which requests.  A missing endpoint or contract address
    /// surfaces as a query failure for the cycle, never as a crash.
    #[verifier::loop_isolation(false)]
    pub fn get_balances_plan(
        &self,
        address: &String,
        coin_entities: &Vec<CoinEntity>,
        grpc_addr: &Option<String>,
        evm_addr: &Option<String>,
    ) -> (r: Result<QueryPlan, Error>)
        ensures
            r is Err ==> r->Err_0 is QueryError,
            *self == CoinType::COSMOS ==> match r {
                Ok(plan) => grpc_addr is Some && (plan matches QueryPlan::CosmosBulk { endpoint }
                    && endpoint@ == grpc_addr->0@),
                Err(_) => grpc_addr is None,
            },
            *self == CoinType::EVM ==> match r {
                Ok(plan) => evm_addr is Some && (plan matches QueryPlan::Evm { endpoint }
                    && endpoint@ == evm_addr->0@),
                Err(_) => evm_addr is None,
            },
            *self == CoinType::CW20 ==> match r {
                Ok(plan) => {
                    &&& grpc_addr is Some
                    &&& plan matches QueryPlan::Cw20 { endpoint, requests } && endpoint@
                        == grpc_addr->0@ && requests@.len() == coin_entities@.len() && (forall|
                        i: int,
                    |
                        0 <= i < coin_entities@.len() ==> {
                            &&& coin_entities@[i].contract_address is Some
                            &&& (#[trigger] requests@[i]).contract_address@
                                == coin_entities@[i].contract_address->0@
                            &&& requests@[i].query_data@ == cw20_query_payload(address@)
                        })
                },
                Err(_) => grpc_addr is None || exists|i: int|
                    0 <= i < coin_entities@.len() && (#[trigger] coin_entities@[i]).contract_address
                        is None,
            },
    {
        match *self {
            CoinType::COSMOS => {
                match grpc_addr {
                    Some(endpoint) => Ok(QueryPlan::CosmosBulk { endpoint: endpoint.clone() }),
                    None => Err(missing_endpoint_error()),
                }
            },
            CoinType::EVM => {
                match evm_addr {
                    Some(endpoint) => Ok(QueryPlan::Evm { endpoint: endpoint.clone() }),
                    None => Err(missing_endpoint_error()),
                }
            },
            CoinType::CW20 => {
                match grpc_addr {
                    Some(endpoint) => {
                        let n: usize = coin_entities.len();
                        let mut requests: Vec<SmartContractQuery> = Vec::new();
                        let mut i: usize = 0;
                        while i < n
                            invariant
                                n == coin_entities@.len(),
                                i <= n,
                                requests@.len() == i,
                                forall|t: int|
                                    0 <= t < i ==> (#[trigger] coin_entities@[t]).contract_address
                                        is Some,
                                forall|t: int|
                                    0 <= t < i ==> {
                                        &&& (#[trigger] requests@[t]).contract_address@
                                            == coin_entities@[t].contract_address->0@
                                        &&& requests@[t].query_data@ == cw20_query_payload(
                                            address@,
                                        )
                                    },
                            decreases n - i,
                        {
                            match &coin_entities[i].contract_address {
                                Some(contract_address) => {
                                    let request = cw20_state_request(contract_address, address);
                                    let ghost pre = requests@;
                                    requests.push(request);
                                    proof {
                                        assert(coin_entities@[i as int].contract_address is Some);
                                        assert(requests@[i as int].contract_address@
                                            == coin_entities@[i as int].contract_address->0@);
                                        assert(requests@[i as int].query_data@
                                            == cw20_query_payload(address@));
                                        assert(forall|t: int| 0 <= t < i ==> requests@[t] == pre[t]);
                                    }
                                },
                                None => {
                                    proof {
                                        assert(coin_entities@[i as int].contract_address is None);
                                    }
                                    return Err(
                                        Error::QueryError {
                                            source: String::from_str(
                                                "CW20 coin has no contract address",
                                            ),
                                            endpoint: endpoint.clone(),
                                        },
                                    );
                                },
                            }
                            i = i + 1;
                        }
                        Ok(QueryPlan::Cw20 { endpoint: endpoint.clone(), requests })
                    },
                    None => Err(missing_endpoint_error()),
                }
            },
        }
    }
}

fn missing_endpoint_error() -> (r: Error)
    ensures
        r is QueryError,
        error_endpoint(r).len() == 0,
{
    proof {
        reveal_strlit("");
    }
    Error::QueryError {
        source: String::from_str("no endpoint is configured for this coin variant"),
        endpoint: String::from_str(""),
    }
}

/// Pairs each CW20 coin's denomination with the amount its contract
/// reported, in order.
pub fn assemble_cw20_balances(coin_entities: &Vec<CoinEntity>, amounts: &Vec<u128>) -> (r: Vec<
    Balance,
>)
    requires
        amounts@.len() == coin_entities@.len(),
    ensures
        r@.len() == coin_entities@.len(),
        forall|i: int|
            0 <= i < r@.len() ==> (#[trigger] r@[i]).denom@ == coin_entities@[i].denom@
                && r@[i].amount == amounts@[i],
{
    let n: usize = coin_entities.len();
    let mut out: Vec<Balance> = Vec::new();
    let mut i: usize = 0;
    while i < n
        invariant
            n == coin_entities@.len() == amounts@.len(),
            i <= n,
            out@.len() == i,
            forall|t: int|
                0 <= t < i ==> (#[trigger] out@[t]).denom@ == coin_entities@[t].denom@
                    && out@[t].amount == amounts@[t],
        decreases n - i,
    {
        out.push(Balance { denom: coin_entities[i].denom.clone(), amount: amounts[i] });
        i = i + 1;
    }
    out
}

/// Wraps an EVM account balance as the single balance of the group's first
/// coin: an address has one native EVM balance, no denomination parameter.
pub fn assemble_evm_balances(coin_entities: &Vec<CoinEntity>, amount: u128) -> (r: Vec<Balance>)
    requires
        coin_entities@.len() > 0,
    ensures
        r@.len() == 1,
        r@[0].denom@ == coin_entities@[0].denom@,
        r@[0].amount == amount,
{
    let mut out: Vec<Balance> = Vec::new();
    out.push(Balance { denom: coin_entities[0].denom.clone(), amount });
    out
}

} // verus!
