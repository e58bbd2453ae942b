//! Stateless fixed-point recipes for common DeFi calculations.

/// Constant-product AMM calculations.
pub mod amm;
/// Fee calculations.
pub mod fee;
/// Lending calculations.
pub mod lending;
/// Time-based schedule calculations.
pub mod schedule;
/// Staking reward calculations.
pub mod staking;
/// Oracle scaling calculations.
pub mod oracle;
