//! Currencies of the native token and of user-defined asset classes.

use vstd::prelude::*;
use vstd::string::*;
use vstd::hash_map::StringHashMap;
use crate::integrate::describe::{
    decoded_value,
    read_prefixed_value,
    ValueSummary,
    ValueSummaryView,
};
use crate::integrate::events_observer::AssetClassCache;
use crate::text::{
    decimal_text,
    find,
    has_hex_prefix,
    lemma_first_match_bounds,
    text_after,
    text_before,
    to_chars,
    u128_to_string,
};
use crate::types::{
    option_currency_view,
    Currency,
    CurrencyMetadata,
    CurrencyMetadataView,
    CurrencyStandard,
    CurrencyView,
};

verus! {

/// The currency of the native token: six decimals, no metadata.
pub open spec fn stacks_currency() -> CurrencyView {
    CurrencyView { symbol: "STX"@, decimals: 6, metadata: None }
}

/// The currency of one token of a non-fungible asset class. It is named
/// after the class and cannot be divided.
pub open spec fn non_fungible_currency(asset_class_id: Seq<char>, asset_id: Seq<char>) -> CurrencyView {
    CurrencyView {
        symbol: asset_class_id,
        decimals: 0,
        metadata: Some(
            CurrencyMetadataView {
                asset_class_identifier: asset_class_id,
                asset_identifier: Some(asset_id),
                standard: CurrencyStandard::Sip09,
            },
        ),
    }
}

/// The currency of a fungible asset class whose symbol and decimals are known.
pub open spec fn fungible_currency(asset_class_id: Seq<char>, entry: AssetClassCache) -> CurrencyView {
    CurrencyView {
        symbol: entry.symbol@,
        decimals: entry.decimals as u32,
        metadata: Some(
            CurrencyMetadataView {
                asset_class_identifier: asset_class_id,
                asset_identifier: None,
                standard: CurrencyStandard::Sip10,
            },
        ),
    }
}

/// The currency that the cache gives for a fungible asset class, if it
/// holds the class.
pub open spec fn cached_currency(
    cache: Map<Seq<char>, AssetClassCache>,
    asset_class_id: Seq<char>,
) -> Option<CurrencyView> {
    if cache.contains_key(asset_class_id) {
        Some(fungible_currency(asset_class_id, cache[asset_class_id]))
    } else {
        None
    }
}

/// A cache that holds no asset class yet.
pub fn new_asset_class_cache() -> (r: StringHashMap<AssetClassCache>)
    ensures
        r@ == Map::<Seq<char>, AssetClassCache>::empty(),
{
    StringHashMap::new()
}

/// The currency of the native token.
pub fn get_stacks_currency() -> (r: Currency)
    ensures
        r@ == stacks_currency(),
{
    Currency { symbol: String::from_str("STX"), decimals: 6, metadata: None }
}

/// The currency of one token of a non-fungible asset class. Nothing is
/// asked of the node and nothing is remembered.
pub fn get_standardized_non_fungible_currency_from_asset_class_id(
    asset_class_id: &str,
    asset_id: &str,
) -> (r: Currency)
    ensures
        r@ == non_fungible_currency(asset_class_id@, asset_id@),
{
    Currency {
        symbol: String::from_str(asset_class_id),
        decimals: 0,
        metadata: Some(
            CurrencyMetadata {
                asset_class_identifier: String::from_str(asset_class_id),
                asset_identifier: Some(String::from_str(asset_id)),
                standard: CurrencyStandard::Sip09,
            },
        ),
    }
}

/// Looks a fungible asset class up in the cache, without asking the node.
pub fn cached_fungible_currency(
    asset_class_id: &str,
    asset_class_cache: &StringHashMap<AssetClassCache>,
) -> (r: Option<Currency>)
    ensures
        option_currency_view(r) == cached_currency(asset_class_cache@, asset_class_id@),
{
    match asset_class_cache.get(asset_class_id) {
        Some(entry) => Some(
            Currency {
                symbol: entry.symbol.clone(),
                decimals: entry.decimals as u32,
                metadata: Some(
                    CurrencyMetadata {
                        asset_class_identifier: String::from_str(asset_class_id),
                        asset_identifier: None,
                        standard: CurrencyStandard::Sip10,
                    },
                ),
            },
        ),
        None => None,
    }
}

/// What parts an asset class from the contract that defines it.
pub open spec fn class_separator() -> Seq<char> {
    seq![':', ':']
}

/// What parts the name of a contract from the address of its deployer.
pub open spec fn name_separator() -> Seq<char> {
    seq!['.']
}

/// The contract that defines an asset class, as the address of its deployer
/// and its name: the text before the first `::`, parted at its first dot,
/// the name ending at a further dot. There is none where that text has no
/// dot.
pub open spec fn contract_of(asset_class_id: Seq<char>) -> Option<(Seq<char>, Seq<char>)> {
    let principal = text_before(asset_class_id, class_separator());
    match text_after(principal, name_separator()) {
        Some(rest) => Some(
            (text_before(principal, name_separator()), text_before(rest, name_separator())),
        ),
        None => None,
    }
}

/// Finds the contract that defines an asset class.
pub fn contract_of_asset_class(asset_class_id: &str) -> (r: Option<(String, String)>)
    ensures
        match contract_of(asset_class_id@) {
            Some((address, name)) => r matches Some(found) && found.0@ == address && found.1@
                == name,
            None => r is None,
        },
{
    let mut colons: Vec<char> = Vec::new();
    colons.push(':');
    colons.push(':');
    let mut dot: Vec<char> = Vec::new();
    dot.push('.');
    assert(colons@ == class_separator());
    assert(dot@ == name_separator());

    let id_chars = to_chars(asset_class_id);
    let end = find(&id_chars, &colons, 0);
    proof {
        lemma_first_match_bounds(id_chars@, colons@, 0);
    }
    let principal = asset_class_id.substring_char(0, end);
    assert(principal@ == text_before(asset_class_id@, class_separator()));
    let principal_chars = to_chars(principal);
    let at = find(&principal_chars, &dot, 0);
    proof {
        lemma_first_match_bounds(principal_chars@, dot@, 0);
    }
    if at >= principal_chars.len() {
        return None;
    }
    let address = principal.substring_char(0, at);
    let rest = principal.substring_char(at + 1, principal_chars.len());
    assert(rest@ == principal@.skip(at + 1));
    let rest_chars = to_chars(rest);
    let stop = find(&rest_chars, &dot, 0);
    proof {
        lemma_first_match_bounds(rest_chars@, dot@, 0);
    }
    let name = rest.substring_char(0, stop);
    Some((String::from_str(address), String::from_str(name)))
}

/// The address of a read-only function of a contract on a node.
pub open spec fn call_read_url(
    node_url: Seq<char>,
    address: Seq<char>,
    contract: Seq<char>,
    function: Seq<char>,
) -> Seq<char> {
    node_url + "/v2/contracts/call-read/"@ + address + "/"@ + contract + "/"@ + function
}

fn call_read(node_url: &str, address: &str, contract: &str, function: &str) -> (r: String)
    ensures
        r@ == call_read_url(node_url@, address@, contract@, function@),
{
    let mut url = String::from_str(node_url);
    url.append("/v2/contracts/call-read/");
    url.append(address);
    url.append("/");
    url.append(contract);
    url.append("/");
    url.append(function);
    url
}

/// The two questions to ask the node about a fungible asset class.
#[derive(Clone, Debug, PartialEq, Eq)]
pub struct ContractQuery {
    /// Where the symbol of the asset class is answered.
    pub symbol_url: String,
    /// Where the number of its decimals is answered.
    pub decimals_url: String,
}

/// What the resolver says of a fungible asset class.
#[derive(Clone, Debug, PartialEq, Eq)]
pub enum FungibleResolution {
    /// The cache holds the class: this is its currency.
    Resolved(Currency),
    /// The cache does not hold it: the node has to be asked.
    Query(ContractQuery),
    /// The cache does not hold it, and its name tells no contract to ask.
    Malformed,
}

/// The view of [`FungibleResolution`].
pub enum FungibleResolutionView {
    Resolved(CurrencyView),
    Query { symbol_url: Seq<char>, decimals_url: Seq<char> },
    Malformed,
}

impl View for FungibleResolution {
    type V = FungibleResolutionView;

    open spec fn view(&self) -> FungibleResolutionView {
        match *self {
            FungibleResolution::Resolved(currency) => FungibleResolutionView::Resolved(currency@),
            FungibleResolution::Query(query) => FungibleResolutionView::Query {
                symbol_url: query.symbol_url@,
                decimals_url: query.decimals_url@,
            },
            FungibleResolution::Malformed => FungibleResolutionView::Malformed,
        }
    }
}

/// What the resolver says of an asset class: its currency where the cache
/// holds it, else the questions to ask its contract on the node.
pub open spec fn resolution(
    asset_class_id: Seq<char>,
    cache: Map<Seq<char>, AssetClassCache>,
    node_url: Seq<char>,
) -> FungibleResolutionView {
    match cached_currency(cache, asset_class_id) {
        Some(currency) => FungibleResolutionView::Resolved(currency),
        None => match contract_of(asset_class_id) {
            Some((address, name)) => FungibleResolutionView::Query {
                symbol_url: call_read_url(node_url, address, name, "get-symbol"@),
                decimals_url: call_read_url(node_url, address, name, "get-decimals"@),
            },
            None => FungibleResolutionView::Malformed,
        },
    }
}

/// Resolves a fungible asset class as far as the cache lets it: to its
/// currency where the cache holds the class, else to the questions that the
/// node has to be asked before the class can be remembered.
pub fn get_standardized_fungible_currency_from_asset_class_id(
    asset_class_id: &str,
    asset_class_cache: &StringHashMap<AssetClassCache>,
    node_url: &str,
) -> (r: FungibleResolution)
    ensures
        r@ == resolution(asset_class_id@, asset_class_cache@, node_url@),
{
    if let Some(currency) = cached_fungible_currency(asset_class_id, asset_class_cache) {
        return FungibleResolution::Resolved(currency);
    }
    match contract_of_asset_class(asset_class_id) {
        Some((address, name)) => FungibleResolution::Query(
            ContractQuery {
                symbol_url: call_read(node_url, address.as_str(), name.as_str(), "get-symbol"),
                decimals_url: call_read(
                    node_url,
                    address.as_str(),
                    name.as_str(),
                    "get-decimals",
                ),
            },
        ),
        None => FungibleResolution::Malformed,
    }
}

/// The unsigned integer that a decoded answer holds: the answer is an `ok`
/// response around an unsigned integer.
pub open spec fn answer_uint(value: Option<ValueSummaryView>) -> Option<u128> {
    match value {
        Some(v) => match v.response {
            Some(response) => if response.committed {
                response.uint
            } else {
                None
            },
            None => None,
        },
        None => None,
    }
}

/// Reads the unsigned integer out of a decoded answer.
pub fn uint_of_answer(value: &Option<ValueSummary>) -> (r: Option<u128>)
    ensures
        r == answer_uint(crate::integrate::describe::option_value(*value)),
{
    match value {
        Some(v) => match v.response {
            Some(response) => if response.committed {
                response.uint
            } else {
                None
            },
            None => None,
        },
        None => None,
    }
}

/// The unsigned integer that the answer of a read-only call holds. The
/// answer is a hexadecimal text with a `0x` prefix.
pub open spec fn answered_uint(answer: Seq<char>) -> Option<u128> {
    if has_hex_prefix(answer) {
        answer_uint(decoded_value(answer))
    } else {
        None
    }
}

/// Reads the unsigned integer out of the answer of a read-only call.
pub fn read_answer(answer: &str) -> (r: Option<u128>)
    ensures
        r == answered_uint(answer@),
{
    uint_of_answer(&read_prefixed_value(answer))
}

/// Why an asset class could not be remembered.
#[derive(Clone, Copy, Debug, PartialEq, Eq, Structural)]
pub enum ResolveError {
    /// The answer on the symbol holds no unsigned integer.
    Symbol,
    /// The answer on the decimals holds no unsigned integer.
    Decimals,
}

/// The decimals that an answered number stands for: its lowest eight bits.
pub open spec fn decimals_of(answered: u128) -> u8 {
    (answered % 256) as u8
}

/// Remembers a fungible asset class from what the node answered on its
/// symbol and its decimals, and gives its currency.
///
/// A class is written once: where the cache holds it already, nothing is
/// changed and the answers are not looked at. An answer that holds no
/// unsigned integer is an error, and the cache stays as it was.
pub fn remember_asset_class(
    asset_class_id: &str,
    asset_class_cache: &mut StringHashMap<AssetClassCache>,
    symbol_answer: &str,
    decimals_answer: &str,
) -> (r: Result<Currency, ResolveError>)
    ensures
        old(asset_class_cache)@.contains_key(asset_class_id@) ==> {
            &&& final(asset_class_cache)@ == old(asset_class_cache)@
            &&& r matches Ok(currency)
            &&& currency@ == fungible_currency(
                asset_class_id@,
                old(asset_class_cache)@[asset_class_id@],
            )
        },
        !old(asset_class_cache)@.contains_key(asset_class_id@) ==> match (
            answered_uint(symbol_answer@),
            answered_uint(decimals_answer@),
        ) {
            (Some(symbol), Some(decimals)) => {
                let entry = final(asset_class_cache)@[asset_class_id@];
                &&& final(asset_class_cache)@ == old(asset_class_cache)@.insert(
                    asset_class_id@,
                    entry,
                )
                &&& entry.symbol@ == decimal_text(symbol as nat)
                &&& entry.decimals == decimals_of(decimals)
                &&& r matches Ok(currency)
                &&& currency@ == fungible_currency(asset_class_id@, entry)
            },
            (None, _) => {
                &&& final(asset_class_cache)@ == old(asset_class_cache)@
                &&& r == Err::<Currency, ResolveError>(ResolveError::Symbol)
            },
            (Some(_), None) => {
                &&& final(asset_class_cache)@ == old(asset_class_cache)@
                &&& r == Err::<Currency, ResolveError>(ResolveError::Decimals)
            },
        },
{
    if let Some(currency) = cached_fungible_currency(asset_class_id, asset_class_cache) {
        return Ok(currency);
    }
    let symbol = match read_answer(symbol_answer) {
        Some(symbol) => symbol,
        None => {
            return Err(ResolveError::Symbol);
        },
    };
    let decimals = match read_answer(decimals_answer) {
        Some(decimals) => decimals,
        None => {
            return Err(ResolveError::Decimals);
        },
    };
    let entry = AssetClassCache {
        symbol: u128_to_string(symbol),
        decimals: (decimals % 256) as u8,
    };
    let currency = Currency {
        symbol: entry.symbol.clone(),
        decimals: entry.decimals as u32,
        metadata: Some(
            CurrencyMetadata {
                asset_class_identifier: String::from_str(asset_class_id),
                asset_identifier: None,
                standard: CurrencyStandard::Sip10,
            },
        ),
    };
    asset_class_cache.insert(String::from_str(asset_class_id), entry);
    Ok(currency)
}

/// Once an asset class is remembered, the resolver gives its currency from
/// the cache, with the symbol and the decimals that were written, and has
/// no question for the node, whatever else is written to the cache later.
pub proof fn lemma_remembered_is_resolved(
    cache: Map<Seq<char>, AssetClassCache>,
    asset_class_id: Seq<char>,
    entry: AssetClassCache,
    later: Map<Seq<char>, AssetClassCache>,
    node_url: Seq<char>,
)
    requires
        cache.insert(asset_class_id, entry).submap_of(later),
    ensures
        resolution(asset_class_id, later, node_url) == FungibleResolutionView::Resolved(
            fungible_currency(asset_class_id, entry),
        ),
        resolution(asset_class_id, later, node_url) == resolution(
            asset_class_id,
            cache.insert(asset_class_id, entry),
            node_url,
        ),
{
    assert(cache.insert(asset_class_id, entry).contains_key(asset_class_id));
}

} // verus!
