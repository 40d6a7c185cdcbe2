//! The payment ledger: its records, its state and its operations.
//!
//! The ledger owns a protocol address set once by `initialize`, a monotonic
//! payment counter, and the payment records keyed densely by id from 0.
//! Mutating operations take plain values and either fully succeed or report
//! one error and leave the state untouched. Distribution is two-phase: the
//! ledger plans the exact transfers the host must perform, in order, and
//! only once the host has performed them all does `mark_claimed` commit the
//! record as claimed, so a failed transfer leaves the ledger exactly as it
//! was.

use crate::errors::Error;
use crate::fees::{
    broadcaster_fee_of, fees_fit, lemma_fee_bounds, net_amount_of, protocol_fee_of,
    relayer_fee_of, BPS_DENOMINATOR, BROADCASTER_FEE_BPS, PROTOCOL_FEE_BPS, RELAYER_FEE_BPS,
};
use vstd::prelude::*;

verus! {

/// An opaque account identifier. The host maps each identifier to a real
/// account; the ledger only compares and stores them.
#[derive(Clone, Copy, Debug, PartialEq, Eq, Hash, Structural)]
pub struct Address {
    pub id: u64,
}

/// One payment's accounting state, fixed at creation.
#[derive(Clone, Copy, Debug, PartialEq, Eq, Structural)]
pub struct Payment {
    pub sender: Address,
    pub recipient: Address,
    pub broadcaster: Address,
    pub relayer: Address,
    /// The post-fee (net) amount of the payment.
    pub amount: i128,
    /// Whether the payment's distribution has been committed: false at
    /// creation, set once by `mark_claimed`, and kept set from then on.
    pub claimed: bool,
}

/// The storage slots a durable host keeps for one ledger instance.
#[derive(Clone, Copy, Debug, PartialEq, Eq, Hash, Structural)]
pub enum DataKey {
    /// The record stored under a payment id.
    Payment(u64),
    /// The total number of payments ever created.
    PaymentCount,
    /// The protocol fee recipient (the deployer).
    Protocol,
}

/// One value movement the host must perform: `amount` of `token` from
/// `from` to `to`.
#[derive(Clone, Copy, Debug, PartialEq, Eq, Structural)]
pub struct Transfer {
    pub token: Address,
    pub from: Address,
    pub to: Address,
    pub amount: i128,
}

/// The fee-splitting payment ledger.
pub struct MeshPayRewards {
    /// The protocol fee recipient; set exactly once by `initialize`.
    pub protocol: Option<Address>,
    /// The next free payment id, and the number of payments created since
    /// the last `initialize`.
    pub payment_count: u64,
    /// The records ever stored, at their ids.
    pub payments: Vec<Payment>,
}

/// A record after its claim is committed: the claimed flag set, every other
/// field kept as it was.
pub open spec fn claimed_record(p: Payment) -> Payment {
    Payment {
        sender: p.sender,
        recipient: p.recipient,
        broadcaster: p.broadcaster,
        relayer: p.relayer,
        amount: p.amount,
        claimed: true,
    }
}

/// The records after one is stored at id `i`: an overwrite where the id was
/// used before, an append where it is fresh.
pub open spec fn stored_at(records: Seq<Payment>, i: int, p: Payment) -> Seq<Payment> {
    if i < records.len() {
        records.update(i, p)
    } else {
        records.push(p)
    }
}

impl MeshPayRewards {
    /// The counter never runs ahead of the records: every id below it has a
    /// record stored.
    pub open spec fn wf(self) -> bool {
        self.payment_count as int <= self.payments@.len()
    }

    /// Whether a record is stored under this id.
    pub open spec fn has_payment(self, payment_id: u64) -> bool {
        (payment_id as int) < self.payments@.len()
    }

    /// The record a successful creation stores.
    pub open spec fn record_of(
        sender: Address,
        recipient: Address,
        broadcaster: Address,
        relayer: Address,
        amount: int,
    ) -> Payment {
        Payment {
            sender,
            recipient,
            broadcaster,
            relayer,
            amount: net_amount_of(amount) as i128,
            claimed: false,
        }
    }

    /// The transfers a successful distribution plans: the three fee shares of
    /// the gross amount, paid by `from` to the broadcaster, the relayer and
    /// the protocol, in that fixed order.
    pub open spec fn reward_transfers(
        payment: Payment,
        protocol: Address,
        gross_amount: int,
        token: Address,
        from: Address,
    ) -> Seq<Transfer> {
        seq![
            (Transfer {
                token,
                from,
                to: payment.broadcaster,
                amount: broadcaster_fee_of(gross_amount) as i128,
            }),
            (Transfer {
                token,
                from,
                to: payment.relayer,
                amount: relayer_fee_of(gross_amount) as i128,
            }),
            (Transfer {
                token,
                from,
                to: protocol,
                amount: protocol_fee_of(gross_amount) as i128,
            }),
        ]
    }

    /// A fresh, uninitialized ledger: no protocol address, no payments.
    pub fn new() -> (r: Self)
        ensures
            r.wf(),
            r.protocol is None,
            r.payment_count == 0,
            r.payments@.len() == 0,
    {
        MeshPayRewards { protocol: None, payment_count: 0, payments: Vec::new() }
    }

    /// Set the protocol fee recipient and reset the counter. A one-shot
    /// setup: a second call fails with `AlreadyInitialized` and changes
    /// nothing.
    pub fn initialize(&mut self, protocol: Address) -> (r: Result<(), Error>)
        requires
            old(self).wf(),
        ensures
            final(self).wf(),
            old(self).protocol is Some ==> r == Err::<(), Error>(Error::AlreadyInitialized)
                && *final(self) == *old(self),
            old(self).protocol is None ==> {
                &&& r == Ok::<(), Error>(())
                &&& final(self).protocol == Some(protocol)
                &&& final(self).payment_count == 0
                &&& final(self).payments@ == old(self).payments@
            },
    {
        if self.protocol.is_some() {
            return Err(Error::AlreadyInitialized);
        }
        self.protocol = Some(protocol);
        self.payment_count = 0;
        Ok(())
    }

    /// Split a gross amount by the fee schedule: `(net, broadcaster fee,
    /// relayer fee, protocol fee)`. Each fee is its basis-point rate applied
    /// independently with truncating division; the net amount is what
    /// subtraction leaves, so the four parts sum back to the gross amount.
    /// A negative amount is rejected as `InvalidAmount`; an amount whose
    /// scaled products leave `i128` fails with `ArithmeticOverflow`.
    pub fn calculate_fees(amount: i128) -> (r: Result<(i128, i128, i128, i128), Error>)
        ensures
            amount < 0 ==> r == Err::<(i128, i128, i128, i128), Error>(Error::InvalidAmount),
            amount >= 0 && !fees_fit(amount as int) ==> r == Err::<
                (i128, i128, i128, i128),
                Error,
            >(Error::ArithmeticOverflow),
            amount >= 0 && fees_fit(amount as int) ==> {
                &&& r is Ok
                &&& r->Ok_0.0 == net_amount_of(amount as int)
                &&& r->Ok_0.1 == broadcaster_fee_of(amount as int)
                &&& r->Ok_0.2 == relayer_fee_of(amount as int)
                &&& r->Ok_0.3 == protocol_fee_of(amount as int)
            },
    {
        if amount < 0 {
            return Err(Error::InvalidAmount);
        }
        let scaled_broadcaster = match amount.checked_mul(BROADCASTER_FEE_BPS as i128) {
            Some(v) => v,
            None => {
                return Err(Error::ArithmeticOverflow);
            },
        };
        proof {
            assert(amount * (RELAYER_FEE_BPS as int) <= amount * (BROADCASTER_FEE_BPS as int))
                by (nonlinear_arith)
                requires
                    amount >= 0,
            ;
            assert(amount * (PROTOCOL_FEE_BPS as int) <= amount * (BROADCASTER_FEE_BPS as int))
                by (nonlinear_arith)
                requires
                    amount >= 0,
            ;
            assert(amount * (RELAYER_FEE_BPS as int) >= 0) by (nonlinear_arith)
                requires
                    amount >= 0,
            ;
            assert(amount * (PROTOCOL_FEE_BPS as int) >= 0) by (nonlinear_arith)
                requires
                    amount >= 0,
            ;
        }
        let scaled_relayer = match amount.checked_mul(RELAYER_FEE_BPS as i128) {
            Some(v) => v,
            None => {
                return Err(Error::ArithmeticOverflow);
            },
        };
        let scaled_protocol = match amount.checked_mul(PROTOCOL_FEE_BPS as i128) {
            Some(v) => v,
            None => {
                return Err(Error::ArithmeticOverflow);
            },
        };
        let broadcaster_fee = match scaled_broadcaster.checked_div(BPS_DENOMINATOR as i128) {
            Some(v) => v,
            None => {
                return Err(Error::ArithmeticOverflow);
            },
        };
        let relayer_fee = match scaled_relayer.checked_div(BPS_DENOMINATOR as i128) {
            Some(v) => v,
            None => {
                return Err(Error::ArithmeticOverflow);
            },
        };
        let protocol_fee = match scaled_protocol.checked_div(BPS_DENOMINATOR as i128) {
            Some(v) => v,
            None => {
                return Err(Error::ArithmeticOverflow);
            },
        };
        proof {
            lemma_fee_bounds(amount as int);
        }
        let net_amount = amount - broadcaster_fee - relayer_fee - protocol_fee;
        Ok((net_amount, broadcaster_fee, relayer_fee, protocol_fee))
    }

    /// Create a payment record: split the amount, store the record with the
    /// net amount under the next free id, and advance the counter. Returns
    /// the new id. Fails with `InvalidAmount` on a negative amount and with
    /// `ArithmeticOverflow` where the split would; a failing call leaves the
    /// ledger unchanged.
    pub fn create_payment(
        &mut self,
        sender: Address,
        recipient: Address,
        broadcaster: Address,
        relayer: Address,
        amount: i128,
    ) -> (r: Result<u64, Error>)
        requires
            old(self).wf(),
            old(self).payment_count < u64::MAX,
        ensures
            final(self).wf(),
            amount < 0 ==> r == Err::<u64, Error>(Error::InvalidAmount) && *final(self) == *old(
                self,
            ),
            amount >= 0 && !fees_fit(amount as int) ==> r == Err::<u64, Error>(
                Error::ArithmeticOverflow,
            ) && *final(self) == *old(self),
            amount >= 0 && fees_fit(amount as int) ==> {
                &&& r == Ok::<u64, Error>(old(self).payment_count)
                &&& final(self).payment_count == old(self).payment_count + 1
                &&& final(self).payments@ == stored_at(
                    old(self).payments@,
                    old(self).payment_count as int,
                    Self::record_of(sender, recipient, broadcaster, relayer, amount as int),
                )
                &&& final(self).protocol == old(self).protocol
            },
    {
        let split = match Self::calculate_fees(amount) {
            Ok(t) => t,
            Err(e) => {
                return Err(e);
            },
        };
        let payment = Payment {
            sender,
            recipient,
            broadcaster,
            relayer,
            amount: split.0,
            claimed: false,
        };
        let payment_id = self.payment_count;
        let index = payment_id as usize;
        if index < self.payments.len() {
            self.payments[index] = payment;
        } else {
            self.payments.push(payment);
        }
        self.payment_count = payment_id + 1;
        Ok(payment_id)
    }

    /// Plan the distribution of a payment's rewards: the fee shares of the
    /// caller-supplied gross amount, paid by `from` to the stored
    /// broadcaster, the stored relayer and the protocol, as three transfers
    /// in that fixed order. Nothing ties the gross amount to the amount
    /// stored at creation: the record only names the parties, and the payer
    /// vouches for the amount. Planning changes no ledger state: once the
    /// host has performed every planned transfer, it commits the claim with
    /// `mark_claimed`. Fails with
    /// `PaymentNotFound` on an unknown id, with `InvalidAmount` or
    /// `ArithmeticOverflow` where the split would, and with
    /// `ProtocolNotConfigured` where `initialize` never ran; the record, the
    /// split and the protocol address are read in that order, and the first
    /// failure encountered is the one reported.
    pub fn distribute_rewards(
        &self,
        payment_id: u64,
        gross_amount: i128,
        token_address: Address,
        from: Address,
    ) -> (r: Result<Vec<Transfer>, Error>)
        ensures
            !self.has_payment(payment_id) ==> r == Err::<Vec<Transfer>, Error>(
                Error::PaymentNotFound,
            ),
            self.has_payment(payment_id) && gross_amount < 0 ==> r == Err::<Vec<Transfer>, Error>(
                Error::InvalidAmount,
            ),
            self.has_payment(payment_id) && gross_amount >= 0 && !fees_fit(gross_amount as int)
                ==> r == Err::<Vec<Transfer>, Error>(Error::ArithmeticOverflow),
            self.has_payment(payment_id) && gross_amount >= 0 && fees_fit(gross_amount as int)
                && self.protocol is None ==> r == Err::<Vec<Transfer>, Error>(
                Error::ProtocolNotConfigured,
            ),
            self.has_payment(payment_id) && gross_amount >= 0 && fees_fit(gross_amount as int)
                && self.protocol is Some ==> {
                &&& r is Ok
                &&& r->Ok_0@ == Self::reward_transfers(
                    self.payments@[payment_id as int],
                    self.protocol->0,
                    gross_amount as int,
                    token_address,
                    from,
                )
            },
    {
        let payment = match self.get_payment(payment_id) {
            Ok(p) => p,
            Err(e) => {
                return Err(e);
            },
        };
        let split = match Self::calculate_fees(gross_amount) {
            Ok(t) => t,
            Err(e) => {
                return Err(e);
            },
        };
        let protocol = match self.protocol {
            Some(a) => a,
            None => {
                return Err(Error::ProtocolNotConfigured);
            },
        };
        let mut transfers: Vec<Transfer> = Vec::new();
        transfers.push(Transfer {
            token: token_address,
            from,
            to: payment.broadcaster,
            amount: split.1,
        });
        transfers.push(Transfer { token: token_address, from, to: payment.relayer, amount: split.2 });
        transfers.push(Transfer { token: token_address, from, to: protocol, amount: split.3 });
        proof {
            assert(transfers@ =~= Self::reward_transfers(
                self.payments@[payment_id as int],
                self.protocol->0,
                gross_amount as int,
                token_address,
                from,
            ));
        }
        Ok(transfers)
    }

    /// Commit a distribution: mark the record claimed, touching nothing
    /// else. The host calls this once every planned transfer has been
    /// performed, so the record is committed only after the payouts
    /// succeeded. The flag only ever goes from false to true: a record once
    /// claimed stays claimed, and committing it again changes nothing.
    /// Fails with `PaymentNotFound` on an unknown id, leaving the ledger
    /// unchanged.
    pub fn mark_claimed(&mut self, payment_id: u64) -> (r: Result<(), Error>)
        ensures
            old(self).wf() ==> final(self).wf(),
            !old(self).has_payment(payment_id) ==> r == Err::<(), Error>(Error::PaymentNotFound)
                && *final(self) == *old(self),
            old(self).has_payment(payment_id) ==> {
                &&& r == Ok::<(), Error>(())
                &&& final(self).payments@ == old(self).payments@.update(
                    payment_id as int,
                    claimed_record(old(self).payments@[payment_id as int]),
                )
                &&& final(self).payment_count == old(self).payment_count
                &&& final(self).protocol == old(self).protocol
            },
    {
        let len_u64 = self.payments.len() as u64;
        if payment_id >= len_u64 {
            return Err(Error::PaymentNotFound);
        }
        let index = payment_id as usize;
        let record = self.payments[index];
        self.payments[index] = Payment {
            sender: record.sender,
            recipient: record.recipient,
            broadcaster: record.broadcaster,
            relayer: record.relayer,
            amount: record.amount,
            claimed: true,
        };
        Ok(())
    }

    /// Look a payment record up by id: a copy of the stored record, exactly
    /// as creation wrote it until `mark_claimed` commits its claim, or
    /// `PaymentNotFound` on an unknown id.
    pub fn get_payment(&self, payment_id: u64) -> (r: Result<Payment, Error>)
        ensures
            self.has_payment(payment_id) ==> r == Ok::<Payment, Error>(
                self.payments@[payment_id as int],
            ),
            !self.has_payment(payment_id) ==> r == Err::<Payment, Error>(Error::PaymentNotFound),
    {
        let len_u64 = self.payments.len() as u64;
        if payment_id < len_u64 {
            Ok(self.payments[payment_id as usize])
        } else {
            Err(Error::PaymentNotFound)
        }
    }

    /// The number of payments created since the ledger (last) started
    /// counting: 0 on a fresh ledger, and the next id to be issued.
    pub fn get_payment_count(&self) -> (r: u64)
        ensures
            r == self.payment_count,
    {
        self.payment_count
    }
}

/// Payment ids are dense: they are issued in order from 0 with no gaps, so
/// every id below a stored id is stored too.
pub proof fn lemma_payment_ids_dense(ledger: MeshPayRewards, low_id: u64, high_id: u64)
    requires
        low_id <= high_id,
        ledger.has_payment(high_id),
    ensures
        ledger.has_payment(low_id),
{
}

/// A record just stored is found again unchanged: once a creation stores a
/// record at the counter's id, that id is known and holds exactly that
/// record, which is what `get_payment` then returns.
pub proof fn lemma_created_record_retrievable(
    pre: MeshPayRewards,
    post: MeshPayRewards,
    id: u64,
    record: Payment,
)
    requires
        pre.wf(),
        id == pre.payment_count,
        post.payments@ == stored_at(pre.payments@, id as int, record),
    ensures
        post.has_payment(id),
        post.payments@[id as int] == record,
{
}

/// The id discipline of one successful creation, as `create_payment`
/// ensures it: the returned id is the counter before the call, and the
/// counter advances by exactly one.
pub open spec fn issued_id_step(pre: MeshPayRewards, post: MeshPayRewards, id: u64) -> bool {
    &&& id == pre.payment_count
    &&& post.payment_count == pre.payment_count + 1
}

/// Along a chain of successful creations the counter counts the steps: the
/// ledger `j` steps after one whose counter read 0 has a counter of `j`.
pub proof fn lemma_counter_counts_creations(
    states: Seq<MeshPayRewards>,
    ids: Seq<u64>,
    j: int,
)
    requires
        states.len() == ids.len() + 1,
        states[0].payment_count == 0,
        forall|i: int| 0 <= i < ids.len() ==> issued_id_step(states[i], states[i + 1], ids[i]),
        0 <= j < states.len(),
    ensures
        states[j].payment_count == j,
    decreases j,
{
    if j > 0 {
        lemma_counter_counts_creations(states, ids, j - 1);
        assert(issued_id_step(states[j - 1], states[j], ids[j - 1]));
    }
}

/// After `n` successful creations on a ledger whose counter started at 0,
/// the counter reads exactly `n`, and the ids issued were `0, 1, ..., n - 1`
/// in call order: no gaps, no reuse.
pub proof fn lemma_ids_issued_in_call_order(states: Seq<MeshPayRewards>, ids: Seq<u64>)
    requires
        states.len() == ids.len() + 1,
        states[0].payment_count == 0,
        forall|i: int| 0 <= i < ids.len() ==> issued_id_step(states[i], states[i + 1], ids[i]),
    ensures
        states.last().payment_count == ids.len(),
        forall|i: int| 0 <= i < ids.len() ==> ids[i] == i,
{
    lemma_counter_counts_creations(states, ids, states.len() - 1);
    assert forall|i: int| 0 <= i < ids.len() implies ids[i] == i by {
        lemma_counter_counts_creations(states, ids, i);
        assert(issued_id_step(states[i], states[i + 1], ids[i]));
    }
}

} // verus!
