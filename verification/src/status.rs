//! The tri-state protection status, the mapping from observation outcomes to
//! status values, and the interpretation of a status query's result rows.

use vstd::prelude::*;

verus! {

/// Last-known state of the host's real-time protection.
///
/// `Unknown` is the initial value and the value adopted whenever an
/// observation fails; it is never the target of a toggle.
#[derive(Clone, Copy, Debug, PartialEq, Eq, Structural)]
pub enum ProtectionState {
    Enabled,
    Disabled,
    Unknown,
}

/// Why an observation of the protection state failed.
#[derive(Clone, Copy, Debug, PartialEq, Eq, Structural)]
pub enum ObserveError {
    /// The security subsystem's management interface could not be reached.
    ConnectionFailed,
    /// The query returned no row, or the status field was absent or not a
    /// boolean.
    FieldMissing,
}

/// The status value a poller cycle adopts for a given observation outcome.
pub open spec fn spec_map_observation(obs: Result<bool, ObserveError>) -> ProtectionState {
    match obs {
        Ok(true) => ProtectionState::Enabled,
        Ok(false) => ProtectionState::Disabled,
        Err(_) => ProtectionState::Unknown,
    }
}

/// Maps an observation outcome to the status value to adopt: a successful
/// read maps to `Enabled`/`Disabled`, any failure degrades to `Unknown`.
pub fn map_observation(obs: Result<bool, ObserveError>) -> (r: ProtectionState)
    ensures
        r == spec_map_observation(obs),
{
    match obs {
        Ok(true) => ProtectionState::Enabled,
        Ok(false) => ProtectionState::Disabled,
        Err(_) => ProtectionState::Unknown,
    }
}

/// The icon asset shown for each status value.
pub open spec fn spec_icon_name(s: ProtectionState) -> Seq<char> {
    match s {
        ProtectionState::Enabled => "defender_enabled"@,
        ProtectionState::Disabled => "defender_disabled"@,
        ProtectionState::Unknown => "defender_unknown"@,
    }
}

/// Returns the identifier of the icon asset that renders the given status.
pub fn icon_name(s: ProtectionState) -> (r: &'static str)
    ensures
        r@ == spec_icon_name(s),
{
    match s {
        ProtectionState::Enabled => "defender_enabled",
        ProtectionState::Disabled => "defender_disabled",
        ProtectionState::Unknown => "defender_unknown",
    }
}

/// The report text for each status value.
pub open spec fn spec_status_message(s: ProtectionState) -> Seq<char> {
    match s {
        ProtectionState::Enabled => "Windows Defender real-time protection is ENABLED"@,
        ProtectionState::Disabled => "Windows Defender real-time protection is DISABLED"@,
        ProtectionState::Unknown => "Windows Defender status is UNKNOWN"@,
    }
}

/// Returns the text reported to the user for the given status.
pub fn status_message(s: ProtectionState) -> (r: &'static str)
    ensures
        r@ == spec_status_message(s),
{
    match s {
        ProtectionState::Enabled => "Windows Defender real-time protection is ENABLED",
        ProtectionState::Disabled => "Windows Defender real-time protection is DISABLED",
        ProtectionState::Unknown => "Windows Defender status is UNKNOWN",
    }
}

/// What a query result row holds in its real-time-protection field.
#[derive(Clone, Copy, Debug, PartialEq, Eq, Structural)]
pub enum FieldValue {
    /// The field is present and is a boolean.
    Bool(bool),
    /// The field is present but is not a boolean.
    WrongType,
    /// The row has no such field.
    Absent,
}

/// What interpreting a sequence of result rows yields: the boolean in the
/// first row's status field, or `FieldMissing` when there is no such value.
pub open spec fn spec_interpret_query(rows: Seq<FieldValue>) -> Result<bool, ObserveError> {
    if rows.len() == 0 {
        Err(ObserveError::FieldMissing)
    } else {
        match rows[0] {
            FieldValue::Bool(b) => Ok(b),
            _ => Err(ObserveError::FieldMissing),
        }
    }
}

/// Extracts the protection flag from the rows a status query returned: the
/// boolean field of the first row. Returns `FieldMissing` when the query
/// returned no row, or the first row lacks the field or holds it with a
/// non-boolean type.
pub fn interpret_query(rows: &Vec<FieldValue>) -> (r: Result<bool, ObserveError>)
    ensures
        r == spec_interpret_query(rows@),
{
    if rows.len() == 0 {
        Err(ObserveError::FieldMissing)
    } else {
        match rows[0] {
            FieldValue::Bool(b) => Ok(b),
            _ => Err(ObserveError::FieldMissing),
        }
    }
}

} // verus!
