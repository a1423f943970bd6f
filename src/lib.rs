//! The order engine of a point-of-sale terminal: a catalog of products, an
//! active order whose totals are always derived from its line items, payment
//! capture, and an append-only history of finalized orders.
//!
//! Every monetary amount is an integer count of ten-thousandths of the
//! currency unit (`50000` is 5.00). With whole-cent prices the fixed tax rate
//! of eight percent is then computed without any rounding.

pub mod money;
pub mod time;
mod ids;
pub mod product;
pub mod payment;
pub mod order;
pub mod history;
pub mod register;

pub use history::{HistoryStore, HistorySummary};
pub use money::{tax_for, AMOUNT_SCALE, MAX_SUBTOTAL, TAX_RATE_PERCENT};
pub use order::{Order, OrderItem, OrderStatus};
pub use payment::{Payment, PaymentMethod};
pub use product::{positions_in_category, starter_catalog, Product, ProductCategory};
pub use register::Register;
pub use time::Timestamp;
