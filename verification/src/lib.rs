//! Presentation core of a personal-finance calculator: currency symbols,
//! bar-chart markup and the fixed presentation of each calculation, with
//! every function proved against its contract.

pub mod chart;
pub mod currency;
pub mod decimal;
pub mod scenario;
