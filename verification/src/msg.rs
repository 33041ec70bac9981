//! The typed commands and queries the contract consumes, and the response
//! shapes it produces.
//!
//! The boundary adapter decodes wire messages into these shapes and encodes
//! the answers back; the core only ever sees plain values.

use vstd::prelude::*;
use crate::state::Coin;
use crate::state::CW721Swap;
use crate::state::Config;
use crate::state::Expiration;
use crate::state::SwapType;

verus! {

pub struct InstantiateMsg {
    pub admin: String,
    pub cw721: String,
}

/// Create or finish a swap. Finish consults only `id`; the stored record
/// governs everything else.
pub struct SwapMsg {
    pub id: String,
    /// A fungible-token contract, or `None` for the native coin.
    pub payment_token: Option<String>,
    pub token_id: String,
    pub expires: Expiration,
    pub price: u128,
    pub swap_type: SwapType,
}

/// Update a swap: only price and expiration are updatable.
pub struct UpdateMsg {
    pub id: String,
    pub expires: Expiration,
    pub price: u128,
}

pub struct CancelMsg {
    pub id: String,
}

pub enum ExecuteMsg {
    Create(SwapMsg),
    Finish(SwapMsg),
    Cancel(CancelMsg),
    Update(UpdateMsg),
    UpdateConfig { config: Config },
}

pub enum QueryMsg {
    /// All swap ids, cursor-paginated: resume strictly after `start_after`.
    List { start_after: Option<String>, limit: Option<u32> },
    /// Count the stored swaps of one type.
    GetTotal { swap_type: SwapType },
    /// All `Offer` records, page-number-paginated.
    GetOffers { page: Option<u32>, limit: Option<u32> },
    /// All `Sale` records, page-number-paginated.
    GetListings { page: Option<u32>, limit: Option<u32> },
    /// The records for one NFT; both types when `swap_type` is `None`.
    ListingsOfToken {
        token_id: String,
        swap_type: Option<SwapType>,
        page: Option<u32>,
        limit: Option<u32>,
    },
    /// The records created by one address; `swap_type` defaults to `Sale`.
    SwapsOf {
        address: String,
        swap_type: Option<SwapType>,
        page: Option<u32>,
        limit: Option<u32>,
    },
    /// The records in an inclusive price range; `swap_type` defaults to `Sale`.
    SwapsByPrice {
        min: Option<u128>,
        max: Option<u128>,
        swap_type: Option<SwapType>,
        page: Option<u32>,
        limit: Option<u32>,
    },
    /// The records of one payment denomination; `None` means the native coin.
    SwapsByDenom {
        payment_token: Option<String>,
        swap_type: Option<SwapType>,
        page: Option<u32>,
        limit: Option<u32>,
    },
    /// The records paid in any fungible token (`cw20` true) or in the
    /// native coin (`cw20` false).
    SwapsByPaymentType {
        cw20: bool,
        swap_type: Option<SwapType>,
        page: Option<u32>,
        limit: Option<u32>,
    },
    /// The details of the named swap; an error if it does not exist.
    Details { id: String },
}

pub struct MigrateMsg {}

/// The answer to `List`.
pub struct ListResponse {
    pub swaps: Vec<String>,
}

/// The answer to `Details`.
pub struct DetailsResponse {
    pub creator: String,
    pub contract: String,
    pub payment_token: Option<String>,
    pub token_id: String,
    pub expires: Expiration,
    pub price: u128,
    pub swap_type: SwapType,
}

/// A typed answer from the query engine; the boundary adapter serializes it.
pub enum QueryAnswer {
    List(ListResponse),
    Details(DetailsResponse),
    Total(u128),
    Swaps(Vec<CW721Swap>),
}

/// An attribute value: free text or a coin amount.
#[derive(Debug, PartialEq)]
pub enum AttrValue {
    Text(String),
    Amount(u128),
}

/// An observable attribute for indexers.
#[derive(Debug, PartialEq)]
pub struct Attribute {
    pub key: String,
    pub value: AttrValue,
}

/// An outbound instruction the host executes atomically with the state
/// mutation.
#[derive(Debug, PartialEq)]
pub enum TransferMsg {
    /// Pay native (or attached) coins from the contract to `to`.
    NativeSend { to: String, funds: Vec<Coin> },
    /// Pull `amount` of the fungible token `token` from `owner` to
    /// `recipient`, relying on a pre-approved allowance.
    Cw20TransferFrom { token: String, owner: String, recipient: String, amount: u128 },
    /// Move the NFT `token_id` of collection `nft_contract` to `recipient`.
    NftTransfer { nft_contract: String, recipient: String, token_id: String },
}

/// What a successful operation hands back to the host: attributes for
/// indexers and the transfer instructions to execute.
#[derive(Debug, PartialEq)]
pub struct Response {
    pub attributes: Vec<Attribute>,
    pub messages: Vec<TransferMsg>,
}

} // verus!
