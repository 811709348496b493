use aranya_policy_vm::{MachineError, MachineErrorType};
use vstd::prelude::*;

verus! {

/// Returned when the shared slot holds no MAVLink data.
#[derive(Debug, Clone, Copy, PartialEq, Eq, Structural)]
pub struct DataMissing;

/// Returned when the shared slot already holds MAVLink data.
#[derive(Debug, Clone, Copy, PartialEq, Eq, Structural)]
pub struct DataPresent;

#[verifier::external_type_specification]
#[verifier::external_body]
pub struct ExMachineError(MachineError);

/// The policy VM error `MachineError::new(MachineErrorType::Unknown(msg))`
/// made from the text `msg`. It depends on `msg` alone.
pub uninterp spec fn unknown_machine_error_for(msg: Seq<char>) -> MachineError;

/// `MachineError::new(MachineErrorType::Unknown(msg))` of `aranya-policy-vm`:
/// an error of the policy VM whose type is `Unknown` with the given text and
/// which carries no source position. The contract claims only that the
/// result is the error named for `msg`; `MachineError` is opaque here, so what
/// the value holds is not stated beyond that name.
#[verifier::external_body]
fn unknown_machine_error(msg: String) -> (r: MachineError)
    ensures
        r == unknown_machine_error_for(msg@),
{
    MachineError::new(MachineErrorType::Unknown(msg))
}

impl DataMissing {
    /// The error's message: "data was missing".
    pub fn message(&self) -> (s: String)
        ensures
            s@ == "data was missing"@,
    {
        "data was missing".to_owned()
    }

    /// The text that a policy VM error made from this error carries: the
    /// error's debug form, "DataMissing".
    pub fn machine_error_text(&self) -> (s: String)
        ensures
            s@ == "DataMissing"@,
    {
        "DataMissing".to_owned()
    }

    /// The policy VM error for this error: of type `Unknown`, with the text
    /// of [`DataMissing::machine_error_text`].
    pub fn to_machine_error(&self) -> (r: MachineError)
        ensures
            r == unknown_machine_error_for("DataMissing"@),
    {
        unknown_machine_error(self.machine_error_text())
    }
}

impl DataPresent {
    /// The error's message: "data was present".
    pub fn message(&self) -> (s: String)
        ensures
            s@ == "data was present"@,
    {
        "data was present".to_owned()
    }
}

} // verus!
