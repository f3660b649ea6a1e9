use vstd::prelude::*;

verus! {

/// One aggregated trade of the Bitcoin stream.
#[derive(Debug, Clone, PartialEq, Eq)]
pub struct BitcoinData {
    pub event_type: String,
    pub event_time: u64,
    pub symbol: String,
    pub agg_trade_id: u64,
    pub price: String,
    pub quantity: String,
    /// `true` is a market sell, `false` a market buy.
    pub is_buyer_market_maker: bool,
}

/// One best-bid/best-ask update of the Solana stream.
#[derive(Debug, Clone, PartialEq, Eq)]
pub struct SolanaData {
    pub agg_trade_id: u64,
    pub symbol: String,
    pub bid_price: String,
    pub bid_quantity: String,
    pub ask_price: String,
    pub ask_quantity: String,
}

} // verus!
