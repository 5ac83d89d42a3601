pub mod initialize_pool;
pub mod manage_liquidity;
pub mod swap;
