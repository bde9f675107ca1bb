//! Core data model of the control plane.
//!
//! Monetary amounts are integers: SOL amounts in lamports (10^-9 SOL),
//! USD amounts in whole dollars, prices in micro-dollars.  Fractions —
//! confidence, scores, percentages — are in parts per million, so that
//! 1.0 is [`PPM_SCALE`].  Timestamps are seconds since the Unix epoch.

use vstd::prelude::*;
use crate::clock::now_secs;
use crate::ident::fresh_id;

verus! {

/// Fixed-point scale of fractional values: 1.0 == 1_000_000 ppm.
pub const PPM_SCALE: u64 = 1_000_000;

/// Lamports in one SOL.
pub const LAMPORTS_PER_SOL: u64 = 1_000_000_000;

/// Mint address of a token, as base-58 text.
#[derive(Debug, Clone, PartialEq)]
pub struct TokenAddress(pub String);

impl TokenAddress {
    pub fn new(addr: &str) -> (t: Self)
        ensures
            t.0@ == addr@,
    {
        TokenAddress(addr.to_owned())
    }

    /// The address text; stands in for display of the address.
    pub fn as_str(&self) -> (r: &str)
        ensures
            r@ == self.0@,
    {
        self.0.as_str()
    }
}

/// Direction of a trading signal.
#[derive(Debug, Clone, Copy, PartialEq, Eq, Structural)]
pub enum SignalType {
    Buy,
    Sell,
    Hold,
}

/// A scored market signal for one token.  Immutable once created.
#[derive(Debug, Clone)]
pub struct Signal {
    pub id: String,
    pub token: TokenAddress,
    pub signal_type: SignalType,
    pub confidence_ppm: u64,
    pub timestamp: u64,
}

impl Signal {
    /// A fresh signal with a random identity, stamped with the current
    /// clock reading.
    pub fn new(token: TokenAddress, signal_type: SignalType, confidence_ppm: u64) -> (s: Self)
        ensures
            s.token == token,
            s.signal_type == signal_type,
            s.confidence_ppm == confidence_ppm,
    {
        Signal {
            id: fresh_id(),
            token,
            signal_type,
            confidence_ppm,
            timestamp: now_secs(),
        }
    }
}

impl Signal {
    /// A field-by-field copy, with the copy known to equal the
    /// original.
    pub fn duplicate(&self) -> (r: Signal)
        ensures
            r == *self,
    {
        Signal {
            id: self.id.clone(),
            token: TokenAddress(self.token.0.clone()),
            signal_type: self.signal_type,
            confidence_ppm: self.confidence_ppm,
            timestamp: self.timestamp,
        }
    }
}

/// Direction of an order.
#[derive(Debug, Clone, Copy, PartialEq, Eq, Structural)]
pub enum OrderType {
    Buy,
    Sell,
}

/// An order derived from an approved signal.  Never mutated after
/// creation; a re-submission produces a new order.
#[derive(Debug, Clone)]
pub struct TradeOrder {
    pub id: String,
    pub signal_id: String,
    pub token: TokenAddress,
    pub order_type: OrderType,
    pub amount_lamports: u64,
    pub slippage_bps: u32,
    pub created_at: u64,
}

impl TradeOrder {
    /// A fresh order for a signal, with a random identity, stamped with
    /// the current clock reading.
    pub fn new(
        signal: &Signal,
        order_type: OrderType,
        amount_lamports: u64,
        slippage_bps: u32,
    ) -> (o: Self)
        ensures
            o.signal_id == signal.id,
            o.token == signal.token,
            o.order_type == order_type,
            o.amount_lamports == amount_lamports,
            o.slippage_bps == slippage_bps,
    {
        TradeOrder {
            id: fresh_id(),
            signal_id: signal.id.clone(),
            token: TokenAddress(signal.token.0.clone()),
            order_type,
            amount_lamports,
            slippage_bps,
            created_at: now_secs(),
        }
    }
}

impl TradeOrder {
    /// A field-by-field copy, with the copy known to equal the
    /// original.
    pub fn duplicate(&self) -> (r: TradeOrder)
        ensures
            r == *self,
    {
        TradeOrder {
            id: self.id.clone(),
            signal_id: self.signal_id.clone(),
            token: TokenAddress(self.token.0.clone()),
            order_type: self.order_type,
            amount_lamports: self.amount_lamports,
            slippage_bps: self.slippage_bps,
            created_at: self.created_at,
        }
    }
}

/// Lifecycle status of a submitted order.
#[derive(Debug, Clone, Copy, PartialEq, Eq, Structural)]
pub enum TradeStatus {
    Pending,
    Executed,
    Failed,
    Cancelled,
}

/// The outcome recorded for an order once it leaves the pending ledger.
#[derive(Debug, Clone)]
pub struct TradeResult {
    pub order_id: String,
    pub status: TradeStatus,
    pub tx_signature: Option<String>,
    pub actual_amount_lamports: Option<u64>,
    pub executed_at: u64,
    pub error: Option<String>,
}

impl TradeResult {
    /// A field-by-field copy, with the copy known to equal the
    /// original.
    pub fn duplicate(&self) -> (r: TradeResult)
        ensures
            r == *self,
    {
        TradeResult {
            order_id: self.order_id.clone(),
            status: self.status,
            tx_signature: match &self.tx_signature {
                Some(s) => Some(s.clone()),
                None => None,
            },
            actual_amount_lamports: self.actual_amount_lamports,
            executed_at: self.executed_at,
            error: match &self.error {
                Some(s) => Some(s.clone()),
                None => None,
            },
        }
    }
}

/// Market facts about one token.
#[derive(Debug, Clone)]
pub struct TokenInfo {
    pub address: TokenAddress,
    pub symbol: String,
    pub name: String,
    pub decimals: u8,
    pub liquidity_usd: u64,
    pub price_usd_micro: u64,
    pub volume_24h_usd: u64,
    pub market_cap_usd: u64,
}

/// A raw token-launch event from the market-data stream.
#[derive(Debug, Clone)]
pub struct MintSignal {
    pub mint_address: String,
    pub market_cap_usd: u64,
    pub volume_24h_usd: u64,
    pub price_usd_micro: u64,
    pub holder_count: u64,
    pub liquidity_usd: u64,
    pub top_holder_ppm: u64,
    pub timestamp: u64,
}

impl MintSignal {
    /// A fresh mint signal stamped with the current clock reading.
    pub fn new(
        mint_address: String,
        market_cap_usd: u64,
        volume_24h_usd: u64,
        price_usd_micro: u64,
        holder_count: u64,
        liquidity_usd: u64,
        top_holder_ppm: u64,
    ) -> (s: Self)
        ensures
            s.mint_address == mint_address,
            s.market_cap_usd == market_cap_usd,
            s.volume_24h_usd == volume_24h_usd,
            s.price_usd_micro == price_usd_micro,
            s.holder_count == holder_count,
            s.liquidity_usd == liquidity_usd,
            s.top_holder_ppm == top_holder_ppm,
    {
        MintSignal {
            mint_address,
            market_cap_usd,
            volume_24h_usd,
            price_usd_micro,
            holder_count,
            liquidity_usd,
            top_holder_ppm,
            timestamp: now_secs(),
        }
    }
}

/// A mint signal together with the analyzer's verdict.
#[derive(Debug, Clone)]
pub struct ScoredSignal {
    pub signal: MintSignal,
    pub score_ppm: u64,
    pub should_buy: bool,
}

/// An open, risk-bearing holding, tracked until closed.
#[derive(Debug, Clone)]
pub struct Position {
    pub id: String,
    pub mint_address: String,
    pub entry_price_usd_micro: u64,
    pub size_lamports: u64,
    pub take_profit_ppm: u64,
    pub stop_loss_ppm: u64,
    pub opened_at: u64,
}

impl Position {
    /// A field-by-field copy, with the copy known to equal the
    /// original.
    pub fn duplicate(&self) -> (r: Position)
        ensures
            r == *self,
    {
        Position {
            id: self.id.clone(),
            mint_address: self.mint_address.clone(),
            entry_price_usd_micro: self.entry_price_usd_micro,
            size_lamports: self.size_lamports,
            take_profit_ppm: self.take_profit_ppm,
            stop_loss_ppm: self.stop_loss_ppm,
            opened_at: self.opened_at,
        }
    }

    /// A fresh position stamped with the current clock reading.
    pub fn new(
        id: String,
        mint_address: String,
        entry_price_usd_micro: u64,
        size_lamports: u64,
        take_profit_ppm: u64,
        stop_loss_ppm: u64,
    ) -> (p: Self)
        ensures
            p.id == id,
            p.mint_address == mint_address,
            p.entry_price_usd_micro == entry_price_usd_micro,
            p.size_lamports == size_lamports,
            p.take_profit_ppm == take_profit_ppm,
            p.stop_loss_ppm == stop_loss_ppm,
    {
        Position {
            id,
            mint_address,
            entry_price_usd_micro,
            size_lamports,
            take_profit_ppm,
            stop_loss_ppm,
            opened_at: now_secs(),
        }
    }
}

/// A closed trade, ready for the journal.
#[derive(Debug, Clone)]
pub struct CompletedTrade {
    pub position_id: String,
    pub mint_address: String,
    pub entry_price_usd_micro: u64,
    pub exit_price_usd_micro: u64,
    pub size_lamports: u64,
    pub pnl_lamports: i64,
    pub opened_at: u64,
    pub closed_at: u64,
    pub exit_reason: String,
}

/// Handle of the trade journal: the path the journal file lives at.
/// Writing the file is I/O and lives outside the verified core.
#[derive(Debug, Clone)]
pub struct TradeJournal {
    pub path: String,
}

impl TradeJournal {
    pub fn new(path: String) -> (j: Self)
        ensures
            j.path == path,
    {
        TradeJournal { path }
    }
}

} // verus!
