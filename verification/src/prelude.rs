//! Prelude

pub use crate::rcc::RccExt as _hk32_hal_rcc_RccExt;
pub use crate::time::U32Ext as _hk32_hal_time_U32Ext;
