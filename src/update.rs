//! Update intents and their translation into sparse changesets.

use vstd::prelude::*;

use crate::enums::MandateStatus;

verus! {

/// A business event that changes a stored mandate. Each variant carries only
/// the field that its event concerns.
#[derive(Debug)]
pub enum MandateUpdate {
    /// The mandate moves to a new lifecycle state.
    StatusUpdate { mandate_status: MandateStatus },
    /// The running total captured under the mandate changes; `None` clears it.
    CaptureAmountUpdate { amount_captured: Option<i32> },
    /// The connector's reference for the mandate changes; `None` clears it.
    ConnectorReferenceUpdate { connector_mandate_id: Option<String> },
}

/// What a changeset does to one nullable column: leave it as stored, set it
/// to null, or set it to a value.
#[derive(Clone, Debug)]
pub enum ColumnChange<T> {
    Keep,
    Null,
    Value(T),
}

impl<T> ColumnChange<T> {
    /// The change that writes `value` into the column: null for `None`.
    pub open spec fn writing(value: Option<T>) -> ColumnChange<T> {
        match value {
            Some(v) => ColumnChange::Value(v),
            None => ColumnChange::Null,
        }
    }

    /// The column's value after this change is applied to `stored`.
    pub open spec fn applied_to(self, stored: Option<T>) -> Option<T> {
        match self {
            ColumnChange::Keep => stored,
            ColumnChange::Null => None,
            ColumnChange::Value(v) => Some(v),
        }
    }

    /// Builds the change that writes `value` into the column.
    pub fn write(value: Option<T>) -> (r: ColumnChange<T>)
        ensures
            r == ColumnChange::writing(value),
    {
        match value {
            Some(v) => ColumnChange::Value(v),
            None => ColumnChange::Null,
        }
    }

    /// Whether the change touches the column at all.
    pub fn is_touched(&self) -> (r: bool)
        ensures
            r == !(*self is Keep),
    {
        !matches!(self, ColumnChange::Keep)
    }
}

/// A sparse changeset over the three updatable columns of a mandate. A
/// column that the changeset does not touch keeps its stored value.
#[derive(Clone, Debug)]
pub struct MandateUpdateInternal {
    pub mandate_status: Option<MandateStatus>,
    pub amount_captured: ColumnChange<i32>,
    pub connector_mandate_id: ColumnChange<String>,
}

impl MandateUpdateInternal {
    /// The changeset that touches no column.
    pub open spec fn untouched() -> MandateUpdateInternal {
        MandateUpdateInternal {
            mandate_status: None,
            amount_captured: ColumnChange::Keep,
            connector_mandate_id: ColumnChange::Keep,
        }
    }
}

impl Default for MandateUpdateInternal {
    fn default() -> (r: Self)
        ensures
            r == MandateUpdateInternal::untouched(),
    {
        MandateUpdateInternal {
            mandate_status: None,
            amount_captured: ColumnChange::Keep,
            connector_mandate_id: ColumnChange::Keep,
        }
    }
}

/// The changeset for an intent: a status update sets the status, a capture
/// update writes the captured amount (null included), a connector reference
/// update writes the connector's mandate id (null included), and no other
/// column is touched.
pub open spec fn changeset_of(update: MandateUpdate) -> MandateUpdateInternal {
    match update {
        MandateUpdate::StatusUpdate { mandate_status } => MandateUpdateInternal {
            mandate_status: Some(mandate_status),
            ..MandateUpdateInternal::untouched()
        },
        MandateUpdate::CaptureAmountUpdate { amount_captured } => MandateUpdateInternal {
            amount_captured: ColumnChange::writing(amount_captured),
            ..MandateUpdateInternal::untouched()
        },
        MandateUpdate::ConnectorReferenceUpdate { connector_mandate_id } => MandateUpdateInternal {
            connector_mandate_id: ColumnChange::writing(connector_mandate_id),
            ..MandateUpdateInternal::untouched()
        },
    }
}

impl From<MandateUpdate> for MandateUpdateInternal {
    /// Translates an intent into its changeset. Every intent has one.
    fn from(mandate_update: MandateUpdate) -> (r: Self)
        ensures
            r == changeset_of(mandate_update),
    {
        match mandate_update {
            MandateUpdate::StatusUpdate { mandate_status } => MandateUpdateInternal {
                mandate_status: Some(mandate_status),
                amount_captured: ColumnChange::Keep,
                connector_mandate_id: ColumnChange::Keep,
            },
            MandateUpdate::CaptureAmountUpdate { amount_captured } => MandateUpdateInternal {
                mandate_status: None,
                amount_captured: ColumnChange::write(amount_captured),
                connector_mandate_id: ColumnChange::Keep,
            },
            MandateUpdate::ConnectorReferenceUpdate { connector_mandate_id } => {
                MandateUpdateInternal {
                    connector_mandate_id: ColumnChange::write(connector_mandate_id),
                    ..MandateUpdateInternal::default()
                }
            },
        }
    }
}

impl vstd::std_specs::convert::FromSpecImpl<MandateUpdate> for MandateUpdateInternal {
    open spec fn obeys_from_spec() -> bool {
        true
    }

    open spec fn from_spec(v: MandateUpdate) -> MandateUpdateInternal {
        changeset_of(v)
    }
}

} // verus!
