//! The remote request that writes one field by name.
//!
//! The transport decodes the payload; what it found arrives here as
//! [`UpdateFieldParams`]. This module decides whether the write is made and
//! what the caller is told.

use vstd::prelude::*;
use vstd::string::StringExecFns;
use crate::scalar::Scalar;
use crate::simulation::field_id::FieldId;
use crate::simulation::simulation_config::SimulationConfig;

verus! {

/// A decoded request: the field to write and the value to write to it.
#[derive(Debug)]
pub struct UpdateFieldRequest {
    pub field_name: String,
    pub value: Scalar,
}

/// What the transport found in a call.
#[derive(Debug)]
pub enum UpdateFieldParams {
    /// The call carried no payload.
    Missing,
    /// The payload does not have the shape of a request.
    Undecodable,
    /// The payload is a request.
    Decoded(UpdateFieldRequest),
}

/// Why a request was not carried out. None of these stops the simulation.
#[derive(Clone, Copy, Debug, PartialEq, Eq, Structural)]
pub enum UpdateFieldError {
    /// No payload was supplied.
    EmptyRequest,
    /// A payload was supplied that is no request.
    MalformedRequest,
    /// The request names no field of the simulation state, or there is no
    /// simulation state yet.
    UnknownField,
}

/// The write that a request made.
#[derive(Clone, Copy, Debug, PartialEq, Eq, Structural)]
pub struct FieldUpdate {
    pub field: FieldId,
    /// The value held before.
    pub old_value: Scalar,
    /// The value held now: the requested value, clamped into the field's
    /// range.
    pub new_value: Scalar,
}

impl UpdateFieldError {
    /// The message that the caller is shown.
    pub open spec fn spec_message(self) -> Seq<char> {
        match self {
            UpdateFieldError::EmptyRequest => "simulation.update_field: Request was empty"@,
            UpdateFieldError::MalformedRequest => "simulation.update_field: Unable to parse request"@,
            UpdateFieldError::UnknownField => "simulation.update_field: Unknown field"@,
        }
    }

    /// The message that the caller is shown.
    pub fn message(self) -> (message: String)
        ensures
            message@ == self.spec_message(),
    {
        match self {
            UpdateFieldError::EmptyRequest => String::from_str(
                "simulation.update_field: Request was empty",
            ),
            UpdateFieldError::MalformedRequest => String::from_str(
                "simulation.update_field: Unable to parse request",
            ),
            UpdateFieldError::UnknownField => String::from_str(
                "simulation.update_field: Unknown field",
            ),
        }
    }
}

impl FieldUpdate {
    /// The confirmation of this write, given the two values as text.
    pub open spec fn spec_message(self, old_text: Seq<char>, new_text: Seq<char>) -> Seq<char> {
        "Updated SimulationConfig::"@ + self.field.spec_name() + ": "@ + old_text + " -> "@
            + new_text
    }

    /// The confirmation of this write. The caller renders the two values
    /// and passes the text.
    pub fn message(&self, old_text: &str, new_text: &str) -> (message: String)
        ensures
            message@ == self.spec_message(old_text@, new_text@),
    {
        let mut message = String::from_str("Updated SimulationConfig::");
        message.append(self.field.name());
        message.append(": ");
        message.append(old_text);
        message.append(" -> ");
        message.append(new_text);
        message
    }
}

/// What a call with `params` returns on the state `state`.
///
/// A call without payload fails with [`UpdateFieldError::EmptyRequest`], one
/// with a payload that is no request with
/// [`UpdateFieldError::MalformedRequest`]. A request succeeds exactly when
/// there is a state and the name names one of its fields; otherwise it fails
/// with [`UpdateFieldError::UnknownField`].
pub open spec fn update_result(params: UpdateFieldParams, state: Option<SimulationConfig>) -> Result<
    FieldUpdate,
    UpdateFieldError,
> {
    match params {
        UpdateFieldParams::Missing => Err(UpdateFieldError::EmptyRequest),
        UpdateFieldParams::Undecodable => Err(UpdateFieldError::MalformedRequest),
        UpdateFieldParams::Decoded(request) => match (state, FieldId::named(request.field_name@)) {
            (Some(cfg), Some(field)) => Ok(
                FieldUpdate {
                    field,
                    old_value: cfg.spec_field(field).value,
                    new_value: cfg.spec_field(field).assigned(request.value).value,
                },
            ),
            _ => Err(UpdateFieldError::UnknownField),
        },
    }
}

/// The state after a call with `params`: a request that succeeds writes its
/// field as [`SimulationConfig::after_set`] says; every other call leaves
/// the state as it was.
pub open spec fn state_after_update(
    params: UpdateFieldParams,
    state: Option<SimulationConfig>,
) -> Option<SimulationConfig> {
    match (params, state) {
        (UpdateFieldParams::Decoded(request), Some(cfg)) => Some(
            cfg.after_set(request.field_name@, request.value),
        ),
        _ => state,
    }
}

/// Carries out a call of the remote method `simulation.update_field`.
///
/// The write is made whenever the name resolves, whatever the field's kind.
pub fn simulation_update_field(params: UpdateFieldParams, state: &mut Option<SimulationConfig>) -> (result:
    Result<FieldUpdate, UpdateFieldError>)
    ensures
        result == update_result(params, *old(state)),
        *final(state) == state_after_update(params, *old(state)),
{
    let request = match params {
        UpdateFieldParams::Missing => {
            return Err(UpdateFieldError::EmptyRequest);
        },
        UpdateFieldParams::Undecodable => {
            return Err(UpdateFieldError::MalformedRequest);
        },
        UpdateFieldParams::Decoded(request) => request,
    };
    let mut cfg = match *state {
        Some(cfg) => cfg,
        None => {
            return Err(UpdateFieldError::UnknownField);
        },
    };
    match FieldId::from_name(request.field_name.as_str()) {
        Some(field) => {
            let (old_value, new_value) = cfg.set_field(field, request.value);
            *state = Some(cfg);
            Ok(FieldUpdate { field, old_value, new_value })
        },
        None => Err(UpdateFieldError::UnknownField),
    }
}

/// A request that fails leaves the state as it was; so does a call that
/// carries no request.
pub proof fn lemma_failed_update_changes_nothing(
    params: UpdateFieldParams,
    state: Option<SimulationConfig>,
)
    requires
        update_result(params, state) is Err,
    ensures
        state_after_update(params, state) == state,
{
}

} // verus!
