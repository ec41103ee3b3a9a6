//! The request dispatcher and its handlers, with the rules they obey.
//!
//! Each handler takes the store as an explicit `&mut` (or `&`) value. The
//! host runtime is expected to persist the store after a successful request
//! and to discard it after a failed one; every failing path here leaves the
//! store exactly as it was, so either policy keeps the state consistent.

use vstd::prelude::*;

use crate::error::ContractError;
use crate::msg::{ExecuteMsg, GetPriceResponse, InstantiateMsg, MessageInfo, QueryMsg, Response};
use crate::state::{OwnerData, Store};

verus! {

/// What a write request does to a price table owned by `owner`, when sent
/// by `sender`: the table afterwards, and the outcome. Authorization is
/// decided first, the zero-price check second, so an unauthorized zero
/// write surfaces `Unauthorized`.
pub open spec fn spec_set_price(
    prices: Map<Seq<char>, u128>,
    owner: Seq<char>,
    sender: Seq<char>,
    symbol: Seq<char>,
    price: u128,
) -> (Map<Seq<char>, u128>, Result<(), ContractError>) {
    if sender != owner {
        (prices, Err(ContractError::Unauthorized))
    } else if price == 0 {
        (prices, Err(ContractError::InvalidZeroAmount))
    } else {
        (prices.insert(symbol, price), Ok(()))
    }
}

/// What a read request returns from a price table: the stored price, or
/// `NotFound` exactly when the symbol was never written.
pub open spec fn spec_get_price(
    prices: Map<Seq<char>, u128>,
    symbol: Seq<char>,
) -> Result<u128, ContractError> {
    if prices.contains_key(symbol) {
        Ok(prices[symbol])
    } else {
        Err(ContractError::NotFound)
    }
}

/// A read result with its response struct stripped to the price it carries.
pub open spec fn price_result_view(
    r: Result<GetPriceResponse, ContractError>,
) -> Result<u128, ContractError> {
    match r {
        Ok(resp) => Ok(resp.price),
        Err(e) => Err(e),
    }
}

/// The audit record of a successful write: no follow-up messages and the
/// single attribute `method = "set_price"`.
pub open spec fn is_set_price_response(resp: Response) -> bool {
    &&& resp.messages@.len() == 0
    &&& resp.attributes@.len() == 1
    &&& resp.attributes@[0].key@ == "method"@
    &&& resp.attributes@[0].value@ == "set_price"@
}

/// The audit record of initialization: no follow-up messages and the
/// attributes `method = "instantiate"` and `owner = <caller>`.
pub open spec fn is_instantiate_response(resp: Response, sender: Seq<char>) -> bool {
    &&& resp.messages@.len() == 0
    &&& resp.attributes@.len() == 2
    &&& resp.attributes@[0].key@ == "method"@
    &&& resp.attributes@[0].value@ == "instantiate"@
    &&& resp.attributes@[1].key@ == "owner"@
    &&& resp.attributes@[1].value@ == sender
}

/// Everything a write request promises: the store moves as
/// [`spec_set_price`] says, the owner record never changes, failures leave
/// the whole store untouched, and success is reported with its audit
/// record. Meaningful only for an initialized store.
pub open spec fn set_price_outcome(
    pre: Store,
    post: Store,
    sender: Seq<char>,
    symbol: Seq<char>,
    price: u128,
    r: Result<Response, ContractError>,
) -> bool {
    match pre.owner_view() {
        Some(owner) => {
            let step = spec_set_price(pre.prices_map(), owner, sender, symbol, price);
            &&& post.wf()
            &&& post.owner == pre.owner
            &&& post.prices_map() == step.0
            &&& match r {
                Ok(resp) => step.1 is Ok && is_set_price_response(resp),
                Err(e) => step.1 == Err::<(), ContractError>(e) && post == pre,
            }
        },
        None => false,
    }
}

/// One-shot initialization: install the caller as the owner.
///
/// The host calls this exactly once per contract instance, before any
/// other request. It always succeeds: afterwards the owner record exists,
/// equals the initializing caller, and the price table is untouched.
pub fn instantiate(
    store: &mut Store,
    info: MessageInfo,
    _msg: InstantiateMsg,
) -> (r: Result<Response, ContractError>)
    requires
        old(store).wf(),
    ensures
        final(store).wf(),
        final(store).initialized(),
        final(store).owner_view() == Some(info.sender@),
        final(store).prices_map() == old(store).prices_map(),
        final(store).prices@ == old(store).prices@,
        r matches Ok(resp) && is_instantiate_response(resp, info.sender@),
{
    let owner_info = OwnerData { owner: info.sender.clone() };
    store.owner = Some(owner_info);
    Ok(
        Response::new()
            .add_attribute("method".to_owned(), "instantiate".to_owned())
            .add_attribute("owner".to_owned(), info.sender),
    )
}

/// Route a state-changing request to its handler.
pub fn execute(store: &mut Store, info: MessageInfo, msg: ExecuteMsg) -> (r: Result<
    Response,
    ContractError,
>)
    requires
        old(store).wf(),
        old(store).initialized(),
    ensures
        match msg {
            ExecuteMsg::SetPrice { symbol, price } => set_price_outcome(
                *old(store),
                *final(store),
                info.sender@,
                symbol@,
                price,
                r,
            ),
        },
{
    match msg {
        ExecuteMsg::SetPrice { symbol, price } => try_set_price(store, info, symbol, price),
    }
}

/// The write handler: store `price` under `symbol` if the caller may.
///
/// Checks, in this order: the caller is the owner (else `Unauthorized`),
/// the price is not zero (else `InvalidZeroAmount`); then overwrites the
/// symbol's entry and reports the `set_price` audit record. Every failure
/// leaves the store unchanged.
pub fn try_set_price(store: &mut Store, info: MessageInfo, symbol: String, price: u128) -> (r:
    Result<Response, ContractError>)
    requires
        old(store).wf(),
        old(store).initialized(),
    ensures
        set_price_outcome(*old(store), *final(store), info.sender@, symbol@, price, r),
{
    if !store.is_owner(&info.sender) {
        return Err(ContractError::Unauthorized);
    }
    match store.set(symbol, price) {
        Ok(()) => Ok(Response::new().add_attribute("method".to_owned(), "set_price".to_owned())),
        Err(e) => Err(e),
    }
}

/// Route a read-only request to its handler. Reads are public: no
/// authorization is checked.
pub fn query(store: &Store, msg: QueryMsg) -> (r: Result<GetPriceResponse, ContractError>)
    requires
        store.wf(),
    ensures
        match msg {
            QueryMsg::GetPrice { symbol } => price_result_view(r) == spec_get_price(
                store.prices_map(),
                symbol@,
            ),
        },
{
    match msg {
        QueryMsg::GetPrice { symbol } => query_get_price(store, symbol),
    }
}

/// The read handler: pure lookup of one symbol's stored price.
fn query_get_price(store: &Store, symbol: String) -> (r: Result<GetPriceResponse, ContractError>)
    requires
        store.wf(),
    ensures
        price_result_view(r) == spec_get_price(store.prices_map(), symbol@),
{
    match store.get(&symbol) {
        Ok(price) => Ok(GetPriceResponse { price }),
        Err(e) => Err(e),
    }
}

/// A write by anyone but the owner fails with `Unauthorized` and leaves
/// the price table exactly as it was, whatever the symbol and price.
pub proof fn lemma_unauthorized_write(
    prices: Map<Seq<char>, u128>,
    owner: Seq<char>,
    sender: Seq<char>,
    symbol: Seq<char>,
    price: u128,
)
    requires
        sender != owner,
    ensures
        spec_set_price(prices, owner, sender, symbol, price) == (
            prices,
            Err::<(), ContractError>(ContractError::Unauthorized),
        ),
{
}

/// A write succeeds exactly when the caller is the owner and the price is
/// not zero; every failure leaves the price table as it was.
pub proof fn lemma_write_success_condition(
    prices: Map<Seq<char>, u128>,
    owner: Seq<char>,
    sender: Seq<char>,
    symbol: Seq<char>,
    price: u128,
)
    ensures
        spec_set_price(prices, owner, sender, symbol, price).1 is Ok <==> (sender == owner && price
            != 0),
        spec_set_price(prices, owner, sender, symbol, price).1 is Err ==> spec_set_price(
            prices,
            owner,
            sender,
            symbol,
            price,
        ).0 == prices,
{
}

/// An owner's write of a zero price fails with `InvalidZeroAmount` and
/// leaves the price table exactly as it was.
pub proof fn lemma_zero_price_rejected(
    prices: Map<Seq<char>, u128>,
    owner: Seq<char>,
    symbol: Seq<char>,
)
    ensures
        spec_set_price(prices, owner, owner, symbol, 0) == (
            prices,
            Err::<(), ContractError>(ContractError::InvalidZeroAmount),
        ),
{
}

/// After the owner successfully writes `price` under `symbol`, a read of
/// `symbol` returns exactly that price.
pub proof fn lemma_write_then_read(
    prices: Map<Seq<char>, u128>,
    owner: Seq<char>,
    symbol: Seq<char>,
    price: u128,
)
    requires
        price != 0,
    ensures
        spec_set_price(prices, owner, owner, symbol, price).1 is Ok,
        spec_get_price(spec_set_price(prices, owner, owner, symbol, price).0, symbol)
            == Ok::<u128, ContractError>(price),
{
}

/// Two successive owner writes to one symbol both succeed, and a read then
/// returns the second price, not the first.
pub proof fn lemma_overwrite(
    prices: Map<Seq<char>, u128>,
    owner: Seq<char>,
    symbol: Seq<char>,
    p1: u128,
    p2: u128,
)
    requires
        p1 != 0,
        p2 != 0,
    ensures
        spec_set_price(prices, owner, owner, symbol, p1).1 is Ok,
        spec_set_price(spec_set_price(prices, owner, owner, symbol, p1).0, owner, owner, symbol, p2).1
            is Ok,
        spec_get_price(
            spec_set_price(
                spec_set_price(prices, owner, owner, symbol, p1).0,
                owner,
                owner,
                symbol,
                p2,
            ).0,
            symbol,
        ) == Ok::<u128, ContractError>(p2),
{
}

/// A read of a symbol that was never written fails with `NotFound`.
pub proof fn lemma_missing_symbol(prices: Map<Seq<char>, u128>, symbol: Seq<char>)
    requires
        !prices.contains_key(symbol),
    ensures
        spec_get_price(prices, symbol) == Err::<u128, ContractError>(ContractError::NotFound),
{
}

} // verus!
