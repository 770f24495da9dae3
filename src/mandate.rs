//! The persisted mandate record, its construction template, and how a
//! changeset and an insert act on it.

use vstd::prelude::*;

use time::PrimitiveDateTime;

use crate::enums::{Currency, MandateStatus, MandateType};
use crate::secret::Secret;
use crate::update::{ColumnChange, MandateUpdateInternal};

verus! {

/// A date and time without offset, from the `time` crate; carried, never read.
#[verifier::external_type_specification]
#[verifier::external_body]
pub struct ExPrimitiveDateTime(PrimitiveDateTime);

/// Relies on the derived `Clone` of `time`'s date-time, a `Copy` type: the
/// clone is the value itself.
pub assume_specification[ <PrimitiveDateTime as Clone>::clone ](
    dt: &PrimitiveDateTime,
) -> (r: PrimitiveDateTime)
    ensures
        r == *dt,
;

/// A recorded authorization to charge a customer's payment method later.
#[derive(Clone)]
pub struct Mandate {
    pub id: i32,
    pub mandate_id: String,
    pub customer_id: String,
    pub merchant_id: String,
    pub payment_method_id: String,
    pub mandate_status: MandateStatus,
    pub mandate_type: MandateType,
    pub customer_accepted_at: Option<PrimitiveDateTime>,
    pub customer_ip_address: Option<Secret>,
    pub customer_user_agent: Option<String>,
    pub network_transaction_id: Option<String>,
    pub previous_transaction_id: Option<String>,
    pub created_at: PrimitiveDateTime,
    pub mandate_amount: Option<i32>,
    pub mandate_currency: Option<Currency>,
    pub amount_captured: Option<i32>,
    pub connector: String,
    pub connector_mandate_id: Option<String>,
}

impl Mandate {
    /// The record after `changeset` is applied: each column the changeset
    /// touches takes its new value, every other field is kept.
    pub open spec fn applied(self, changeset: MandateUpdateInternal) -> Mandate {
        Mandate {
            mandate_status: match changeset.mandate_status {
                Some(s) => s,
                None => self.mandate_status,
            },
            amount_captured: changeset.amount_captured.applied_to(self.amount_captured),
            connector_mandate_id: changeset.connector_mandate_id.applied_to(
                self.connector_mandate_id,
            ),
            ..self
        }
    }

    /// Whether the write-once fields of `self` and `other` agree.
    pub open spec fn same_identity(self, other: Mandate) -> bool {
        &&& self.mandate_id == other.mandate_id
        &&& self.customer_id == other.customer_id
        &&& self.merchant_id == other.merchant_id
        &&& self.payment_method_id == other.payment_method_id
        &&& self.mandate_type == other.mandate_type
        &&& self.created_at == other.created_at
    }

    /// Applies `changeset` in place, writing only the columns it touches.
    pub fn apply_changeset(&mut self, changeset: MandateUpdateInternal)
        ensures
            *final(self) == old(self).applied(changeset),
    {
        if let Some(status) = changeset.mandate_status {
            self.mandate_status = status;
        }
        match changeset.amount_captured {
            ColumnChange::Keep => {},
            ColumnChange::Null => {
                self.amount_captured = None;
            },
            ColumnChange::Value(v) => {
                self.amount_captured = Some(v);
            },
        }
        match changeset.connector_mandate_id {
            ColumnChange::Keep => {},
            ColumnChange::Null => {
                self.connector_mandate_id = None;
            },
            ColumnChange::Value(v) => {
                self.connector_mandate_id = Some(v);
            },
        }
    }
}

/// The template a new mandate is created from. `created_at` may be left to
/// the storage layer, which also assigns `id`.
#[derive(Clone)]
pub struct MandateNew {
    pub mandate_id: String,
    pub customer_id: String,
    pub merchant_id: String,
    pub payment_method_id: String,
    pub mandate_status: MandateStatus,
    pub mandate_type: MandateType,
    pub customer_accepted_at: Option<PrimitiveDateTime>,
    pub customer_ip_address: Option<Secret>,
    pub customer_user_agent: Option<String>,
    pub network_transaction_id: Option<String>,
    pub previous_transaction_id: Option<String>,
    pub created_at: Option<PrimitiveDateTime>,
    pub mandate_amount: Option<i32>,
    pub mandate_currency: Option<Currency>,
    pub amount_captured: Option<i32>,
    pub connector: String,
    pub connector_mandate_id: Option<String>,
}

impl MandateNew {
    /// The record that inserting `self` yields, given the identity `id` the
    /// storage layer assigns and the time `now` it uses when `created_at` is
    /// absent. Every other field is carried over as it is.
    pub open spec fn persisted(self, id: i32, now: PrimitiveDateTime) -> Mandate {
        Mandate {
            id,
            mandate_id: self.mandate_id,
            customer_id: self.customer_id,
            merchant_id: self.merchant_id,
            payment_method_id: self.payment_method_id,
            mandate_status: self.mandate_status,
            mandate_type: self.mandate_type,
            customer_accepted_at: self.customer_accepted_at,
            customer_ip_address: self.customer_ip_address,
            customer_user_agent: self.customer_user_agent,
            network_transaction_id: self.network_transaction_id,
            previous_transaction_id: self.previous_transaction_id,
            created_at: match self.created_at {
                Some(t) => t,
                None => now,
            },
            mandate_amount: self.mandate_amount,
            mandate_currency: self.mandate_currency,
            amount_captured: self.amount_captured,
            connector: self.connector,
            connector_mandate_id: self.connector_mandate_id,
        }
    }

    /// A template with the required fields given and every optional field
    /// absent.
    pub fn new(
        mandate_id: String,
        customer_id: String,
        merchant_id: String,
        payment_method_id: String,
        mandate_status: MandateStatus,
        mandate_type: MandateType,
        connector: String,
    ) -> (r: MandateNew)
        ensures
            r == (MandateNew {
                mandate_id,
                customer_id,
                merchant_id,
                payment_method_id,
                mandate_status,
                mandate_type,
                customer_accepted_at: None,
                customer_ip_address: None,
                customer_user_agent: None,
                network_transaction_id: None,
                previous_transaction_id: None,
                created_at: None,
                mandate_amount: None,
                mandate_currency: None,
                amount_captured: None,
                connector,
                connector_mandate_id: None,
            }),
    {
        MandateNew {
            mandate_id,
            customer_id,
            merchant_id,
            payment_method_id,
            mandate_status,
            mandate_type,
            customer_accepted_at: None,
            customer_ip_address: None,
            customer_user_agent: None,
            network_transaction_id: None,
            previous_transaction_id: None,
            created_at: None,
            mandate_amount: None,
            mandate_currency: None,
            amount_captured: None,
            connector,
            connector_mandate_id: None,
        }
    }

    /// Sets the time the customer accepted the mandate.
    pub fn set_customer_accepted_at(&mut self, value: Option<PrimitiveDateTime>)
        ensures
            *final(self) == (MandateNew { customer_accepted_at: value, ..*old(self) }),
    {
        self.customer_accepted_at = value;
    }

    /// Sets the customer's wrapped IP address.
    pub fn set_customer_ip_address(&mut self, value: Option<Secret>)
        ensures
            *final(self) == (MandateNew { customer_ip_address: value, ..*old(self) }),
    {
        self.customer_ip_address = value;
    }

    /// Sets the customer's user agent.
    pub fn set_customer_user_agent(&mut self, value: Option<String>)
        ensures
            *final(self) == (MandateNew { customer_user_agent: value, ..*old(self) }),
    {
        self.customer_user_agent = value;
    }

    /// Sets the network's transaction id.
    pub fn set_network_transaction_id(&mut self, value: Option<String>)
        ensures
            *final(self) == (MandateNew { network_transaction_id: value, ..*old(self) }),
    {
        self.network_transaction_id = value;
    }

    /// Sets the previous transaction's id.
    pub fn set_previous_transaction_id(&mut self, value: Option<String>)
        ensures
            *final(self) == (MandateNew { previous_transaction_id: value, ..*old(self) }),
    {
        self.previous_transaction_id = value;
    }

    /// Sets the creation time; `None` leaves it to the storage layer.
    pub fn set_created_at(&mut self, value: Option<PrimitiveDateTime>)
        ensures
            *final(self) == (MandateNew { created_at: value, ..*old(self) }),
    {
        self.created_at = value;
    }

    /// Sets the amount captured so far.
    pub fn set_amount_captured(&mut self, value: Option<i32>)
        ensures
            *final(self) == (MandateNew { amount_captured: value, ..*old(self) }),
    {
        self.amount_captured = value;
    }

    /// Sets the connector's reference for the mandate.
    pub fn set_connector_mandate_id(&mut self, value: Option<String>)
        ensures
            *final(self) == (MandateNew { connector_mandate_id: value, ..*old(self) }),
    {
        self.connector_mandate_id = value;
    }

    /// Bounds the mandate by an amount: sets the amount and its currency
    /// together, so that one is present exactly when the other is.
    pub fn set_mandate_amount_data(&mut self, data: Option<MandateAmountData>)
        ensures
            *final(self) == (MandateNew {
                mandate_amount: match data {
                    Some(d) => Some(d.amount),
                    None => None,
                },
                mandate_currency: match data {
                    Some(d) => Some(d.currency),
                    None => None,
                },
                ..*old(self)
            }),
    {
        match data {
            Some(d) => {
                self.mandate_amount = Some(d.amount);
                self.mandate_currency = Some(d.currency);
            },
            None => {
                self.mandate_amount = None;
                self.mandate_currency = None;
            },
        }
    }

    /// Turns the template into the stored record, with the identity `id` and,
    /// where the template has no creation time, `now`.
    pub fn into_mandate(self, id: i32, now: PrimitiveDateTime) -> (r: Mandate)
        ensures
            r == self.persisted(id, now),
    {
        let created_at = match self.created_at {
            Some(t) => t,
            None => now,
        };
        Mandate {
            id,
            mandate_id: self.mandate_id,
            customer_id: self.customer_id,
            merchant_id: self.merchant_id,
            payment_method_id: self.payment_method_id,
            mandate_status: self.mandate_status,
            mandate_type: self.mandate_type,
            customer_accepted_at: self.customer_accepted_at,
            customer_ip_address: self.customer_ip_address,
            customer_user_agent: self.customer_user_agent,
            network_transaction_id: self.network_transaction_id,
            previous_transaction_id: self.previous_transaction_id,
            created_at,
            mandate_amount: self.mandate_amount,
            mandate_currency: self.mandate_currency,
            amount_captured: self.amount_captured,
            connector: self.connector,
            connector_mandate_id: self.connector_mandate_id,
        }
    }
}

/// An amount paired with its currency, describing an amount-bounded
/// authorization. Equality is by value.
#[derive(Clone, Copy, Debug, PartialEq, Eq, Structural)]
pub struct MandateAmountData {
    pub amount: i32,
    pub currency: Currency,
}

impl Default for MandateNew {
    /// A template with empty identifiers, default status and type, and every
    /// optional field absent.
    fn default() -> (r: Self)
        ensures
            r.mandate_id@ == Seq::<char>::empty(),
            r.customer_id@ == Seq::<char>::empty(),
            r.merchant_id@ == Seq::<char>::empty(),
            r.payment_method_id@ == Seq::<char>::empty(),
            r.connector@ == Seq::<char>::empty(),
            r.mandate_status == MandateStatus::Active,
            r.mandate_type == MandateType::MultiUse,
            r.customer_accepted_at is None,
            r.customer_ip_address is None,
            r.customer_user_agent is None,
            r.network_transaction_id is None,
            r.previous_transaction_id is None,
            r.created_at is None,
            r.mandate_amount is None,
            r.mandate_currency is None,
            r.amount_captured is None,
            r.connector_mandate_id is None,
    {
        MandateNew::new(
            String::new(),
            String::new(),
            String::new(),
            String::new(),
            MandateStatus::default(),
            MandateType::default(),
            String::new(),
        )
    }
}

impl Default for MandateAmountData {
    fn default() -> (r: Self)
        ensures
            r == (MandateAmountData { amount: 0, currency: Currency::USD }),
    {
        MandateAmountData { amount: 0, currency: Currency::default() }
    }
}

} // verus!
