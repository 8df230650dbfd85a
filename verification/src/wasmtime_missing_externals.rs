//! The function that stands in for host functions which a guest imports but the host lacks.
use crate::value::{FunctionSignature, FunctionSignatureView, Value};
use vstd::prelude::*;

verus! {

/// A host function that does nothing.
#[derive(Debug, Clone, Copy)]
pub struct MissingExternalFunction(&'static str);

/// What comes of a function that does nothing.
pub open spec fn outcome_of_nothing(args: Seq<Value>) -> Result<Option<Value>, String> {
    Ok(None)
}

/// The signature of a function that does nothing.
pub open spec fn signature_of_nothing() -> FunctionSignatureView {
    FunctionSignatureView { args: seq![], return_value: None }
}

impl MissingExternalFunction {
    /// The name of the function.
    pub closed spec fn spec_name(&self) -> Seq<char> {
        self.0@
    }

    /// The name of the function.
    pub fn name(&self) -> (name: &str)
        ensures
            name@ == self.spec_name(),
    {
        self.0
    }

    /// The signature of the function: no arguments and no result.
    pub fn signature(&self) -> (signature: FunctionSignature)
        ensures
            signature.args@.len() == 0,
            signature.return_value is None,
            signature@ == signature_of_nothing(),
    {
        let signature = FunctionSignature { args: Vec::new(), return_value: None };
        assert(signature@.args =~= signature_of_nothing().args);
        signature
    }

    /// Executes the function, whatever it is called with.
    pub fn execute(&self, _args: &Vec<Value>) -> (outcome: Result<Option<Value>, String>)
        ensures
            outcome == Ok::<Option<Value>, String>(None),
            outcome == outcome_of_nothing(_args@),
    {
        Ok(None)
    }
}

/// The function that all missing host functions are replaced by.
pub fn missing_external_function() -> (function: MissingExternalFunction)
    ensures
        function.spec_name() == "missing_external"@,
{
    MissingExternalFunction("missing_external")
}

/// A function that stands in for a missing one never fails and never gives anything, whatever it is
/// called with; and it takes nothing.
pub proof fn replacement_does_nothing(args: Seq<Value>)
    ensures
        outcome_of_nothing(args) is Ok,
        outcome_of_nothing(args)->Ok_0 is None,
        signature_of_nothing().args.len() == 0,
        signature_of_nothing().return_value is None,
{
}

} // verus!
