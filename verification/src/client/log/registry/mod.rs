//! Span bookkeeping: the per-thread stack of entered spans, and the
//! subscriber's span registry as the formatting code reads it.

pub mod stack;
pub mod lookup;
