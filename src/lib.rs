//! Text governance: detection and redaction of personally identifiable
//! information, a policy decision per text, and audit receipts.

pub mod types;
pub mod patterns;
pub mod detect;
pub mod receipt;
pub mod engine;
pub mod middleware;

pub use detect::detect_pii;
pub use engine::{ActionCounts, GovernanceResult, Tork, TorkConfig, TorkStats};
pub use receipt::{generate_receipt_id, hash_text, GovernanceReceipt, UtcTimestamp};
pub use types::{GovernanceAction, PIIDetectionResult, PIIMatch, PIIType};
