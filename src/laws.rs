//! What holds of every intent, record and template: proved facts about
//! translating intents and applying the resulting changesets.

use vstd::prelude::*;

use time::PrimitiveDateTime;

use crate::mandate::{Mandate, MandateNew};
use crate::update::{changeset_of, MandateUpdate};

verus! {

/// The record after the changesets of `updates` are applied in order.
pub open spec fn applied_all(m: Mandate, updates: Seq<MandateUpdate>) -> Mandate
    decreases updates.len(),
{
    if updates.len() == 0 {
        m
    } else {
        applied_all(m.applied(changeset_of(updates[0])), updates.drop_first())
    }
}

/// Applying the changeset of an intent changes exactly the field that the
/// intent names, to the value it carries, and leaves every other field as
/// stored.
pub proof fn lemma_field_isolation(m: Mandate, update: MandateUpdate)
    ensures
        m.applied(changeset_of(update)) == match update {
            MandateUpdate::StatusUpdate { mandate_status } => Mandate { mandate_status, ..m },
            MandateUpdate::CaptureAmountUpdate { amount_captured } => Mandate {
                amount_captured,
                ..m
            },
            MandateUpdate::ConnectorReferenceUpdate { connector_mandate_id } => Mandate {
                connector_mandate_id,
                ..m
            },
        },
{
}

/// A capture update without an amount clears the stored captured amount,
/// whatever it was: it does not leave the column untouched.
pub proof fn lemma_capture_clears(m: Mandate)
    ensures
        m.applied(
            changeset_of(MandateUpdate::CaptureAmountUpdate { amount_captured: None }),
        ).amount_captured == None::<i32>,
{
}

/// No sequence of intents changes the write-once fields: `mandate_id`,
/// `customer_id`, `merchant_id`, `payment_method_id`, `mandate_type` and
/// `created_at`.
pub proof fn lemma_identity_fields_fixed(m: Mandate, updates: Seq<MandateUpdate>)
    ensures
        applied_all(m, updates).same_identity(m),
    decreases updates.len(),
{
    if updates.len() > 0 {
        let next = m.applied(changeset_of(updates[0]));
        lemma_identity_fields_fixed(next, updates.drop_first());
    }
}

/// Applying the same intent twice in succession gives the record that
/// applying it once gives; in particular for a status update.
pub proof fn lemma_update_idempotent(m: Mandate, update: MandateUpdate)
    ensures
        m.applied(changeset_of(update)).applied(changeset_of(update)) == m.applied(
            changeset_of(update),
        ),
{
}

/// Inserting a template yields a record whose fields equal the template's,
/// but for the assigned `id` and a `created_at` that, where the template had
/// none, is the insert time.
pub proof fn lemma_round_trip(new: MandateNew, id: i32, now: PrimitiveDateTime)
    ensures
        ({
            let m = new.persisted(id, now);
            &&& m.id == id
            &&& m.mandate_id == new.mandate_id
            &&& m.customer_id == new.customer_id
            &&& m.merchant_id == new.merchant_id
            &&& m.payment_method_id == new.payment_method_id
            &&& m.mandate_status == new.mandate_status
            &&& m.mandate_type == new.mandate_type
            &&& m.customer_accepted_at == new.customer_accepted_at
            &&& m.customer_ip_address == new.customer_ip_address
            &&& m.customer_user_agent == new.customer_user_agent
            &&& m.network_transaction_id == new.network_transaction_id
            &&& m.previous_transaction_id == new.previous_transaction_id
            &&& (new.created_at matches Some(t) ==> m.created_at == t)
            &&& (new.created_at is None ==> m.created_at == now)
            &&& m.mandate_amount == new.mandate_amount
            &&& m.mandate_currency == new.mandate_currency
            &&& m.amount_captured == new.amount_captured
            &&& m.connector == new.connector
            &&& m.connector_mandate_id == new.connector_mandate_id
        }),
{
}

} // verus!
