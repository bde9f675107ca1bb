//! Turning decoded launch-event fields into a mint signal.
//!
//! The wire format is JSON; decoding the bytes is done by a JSON
//! library outside the verified core, which then hands the extracted
//! fields here as plain values.  The rules — a missing mint address
//! rejects the event, every missing numeric field defaults to zero —
//! are verified.

use vstd::prelude::*;
use crate::errors::HydraError;
use crate::types::MintSignal;

verus! {

/// Parser of launch events from the stream.
pub struct PumpfunParser;

impl PumpfunParser {
    pub fn new() -> Self {
        PumpfunParser
    }

    /// Build a mint signal from decoded event fields: fails exactly
    /// when the mint address is missing; every absent numeric field
    /// reads as zero.
    pub fn from_fields(
        &self,
        mint_address: Option<String>,
        market_cap_usd: Option<u64>,
        volume_24h_usd: Option<u64>,
        price_usd_micro: Option<u64>,
        holder_count: Option<u64>,
        liquidity_usd: Option<u64>,
        top_holder_ppm: Option<u64>,
    ) -> (r: Result<MintSignal, HydraError>)
        ensures
            r is Ok <==> mint_address is Some,
            r matches Err(e) ==> e is Config,
            r matches Ok(s) ==> {
                &&& s.mint_address == mint_address->0
                &&& s.market_cap_usd == market_cap_usd.unwrap_or(0)
                &&& s.volume_24h_usd == volume_24h_usd.unwrap_or(0)
                &&& s.price_usd_micro == price_usd_micro.unwrap_or(0)
                &&& s.holder_count == holder_count.unwrap_or(0)
                &&& s.liquidity_usd == liquidity_usd.unwrap_or(0)
                &&& s.top_holder_ppm == top_holder_ppm.unwrap_or(0)
            },
    {
        let mint = match mint_address {
            Some(m) => m,
            None => {
                return Err(HydraError::Config("missing mint field".to_owned()));
            },
        };
        Ok(
            MintSignal::new(
                mint,
                market_cap_usd.unwrap_or(0),
                volume_24h_usd.unwrap_or(0),
                price_usd_micro.unwrap_or(0),
                holder_count.unwrap_or(0),
                liquidity_usd.unwrap_or(0),
                top_holder_ppm.unwrap_or(0),
            ),
        )
    }
}

impl Default for PumpfunParser {
    fn default() -> Self {
        PumpfunParser::new()
    }
}

} // verus!
