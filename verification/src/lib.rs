//! A fee-splitting payment ledger.
//!
//! The ledger records payment intents between a sender and a recipient,
//! splits each gross amount among a broadcaster, a relayer and the protocol
//! operator using a fixed basis-point schedule, and plans the transfers that
//! pay those shares out. Moving value, proving a caller's identity and
//! persisting state durably are the host's business: the ledger holds its
//! own state, takes plain values in, hands the host an exact transfer plan
//! back, and commits a payment as claimed only once the host reports the
//! plan performed.

mod errors;
mod fees;
mod ledger;

pub use errors::Error;
pub use ledger::{
    claimed_record, issued_id_step, lemma_counter_counts_creations,
    lemma_created_record_retrievable, lemma_ids_issued_in_call_order, lemma_payment_ids_dense,
    stored_at, Address, DataKey, MeshPayRewards, Payment, Transfer,
};
pub use fees::{
    broadcaster_fee_of, fees_fit, lemma_fee_bounds, lemma_fee_conservation,
    lemma_fee_schedule_total, lemma_fee_split_deterministic, net_amount_of, protocol_fee_of,
    relayer_fee_of, BPS_DENOMINATOR, BROADCASTER_FEE_BPS, PROTOCOL_FEE_BPS, RELAYER_FEE_BPS,
    TOTAL_FEE_BPS,
};
