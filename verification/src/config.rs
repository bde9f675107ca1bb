//! Configuration consumed by the control plane (read-only values).
//!
//! Loading these from a file is I/O and lives outside the verified
//! core; the core only reads the values.

use vstd::prelude::*;

verus! {

/// Endpoints of the chain network.
#[derive(Debug, Clone)]
pub struct NetworkConfig {
    pub rpc_url: String,
    pub wss_url: String,
    pub commitment: String,
}

/// Limits of the risk components.
#[derive(Debug, Clone)]
pub struct RiskConfig {
    pub max_position_size_lamports: u64,
    pub max_daily_loss_lamports: u64,
    pub confidence_threshold_ppm: u64,
    pub min_liquidity_usd: u64,
}

/// Parameters of the external analyzer.
#[derive(Debug, Clone)]
pub struct AiConfig {
    pub model: String,
    pub max_tokens: u32,
    pub temperature_ppm: u64,
    pub timeout_secs: u64,
}

/// Parameters of metrics export and alerting.
#[derive(Debug, Clone)]
pub struct MonitoringConfig {
    pub prometheus_port: u16,
    pub alert_webhook_url: Option<String>,
}

/// The whole configuration.
#[derive(Debug, Clone)]
pub struct HydraConfig {
    pub network: NetworkConfig,
    pub risk: RiskConfig,
    pub ai: AiConfig,
    pub monitoring: MonitoringConfig,
}

impl Default for HydraConfig {
    /// The stock configuration: mainnet endpoints, 1 SOL position cap,
    /// 5 SOL daily-loss ceiling, 0.15 confidence threshold, 50 000 USD
    /// liquidity floor.
    fn default() -> (c: Self)
        ensures
            c.risk.max_position_size_lamports == 1_000_000_000,
            c.risk.max_daily_loss_lamports == 5_000_000_000,
            c.risk.confidence_threshold_ppm == 150_000,
            c.risk.min_liquidity_usd == 50_000,
            c.ai.max_tokens == 1024,
            c.ai.temperature_ppm == 100_000,
            c.ai.timeout_secs == 30,
            c.monitoring.prometheus_port == 9090,
            c.monitoring.alert_webhook_url is None,
    {
        HydraConfig {
            network: NetworkConfig {
                rpc_url: "https://api.mainnet-beta.solana.com".to_owned(),
                wss_url: "wss://api.mainnet-beta.solana.com".to_owned(),
                commitment: "confirmed".to_owned(),
            },
            risk: RiskConfig {
                max_position_size_lamports: 1_000_000_000,
                max_daily_loss_lamports: 5_000_000_000,
                confidence_threshold_ppm: 150_000,
                min_liquidity_usd: 50_000,
            },
            ai: AiConfig {
                model: "deepseek-chat".to_owned(),
                max_tokens: 1024,
                temperature_ppm: 100_000,
                timeout_secs: 30,
            },
            monitoring: MonitoringConfig {
                prometheus_port: 9090,
                alert_webhook_url: None,
            },
        }
    }
}

} // verus!
