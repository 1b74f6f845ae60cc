//! Which requests of the debug adapter protocol the debugger answers.
//!
//! The editor names a request by a word. The bridge hands the requests that
//! it knows to the debugger, with their arguments decoded where they take
//! any, and refuses the others.

use vstd::prelude::*;
use vstd::string::*;
use crate::text::same_text;

verus! {

/// A request that the debugger answers.
#[derive(Clone, Copy, Debug, PartialEq, Eq, Structural)]
pub enum DapRequest {
    Initialize,
    Launch,
    ConfigurationDone,
    SetBreakpoints,
    SetExceptionBreakpoints,
    Disconnect,
    Threads,
    StackTrace,
    Scopes,
    Variables,
    StepIn,
    StepOut,
    Next,
    Continue,
    Pause,
}

impl DapRequest {
    /// The word that names the request.
    pub open spec fn name(self) -> Seq<char> {
        match self {
            DapRequest::Initialize => "initialize"@,
            DapRequest::Launch => "launch"@,
            DapRequest::ConfigurationDone => "configuration_done"@,
            DapRequest::SetBreakpoints => "setBreakpoints"@,
            DapRequest::SetExceptionBreakpoints => "setExceptionBreakpoints"@,
            DapRequest::Disconnect => "disconnect"@,
            DapRequest::Threads => "threads"@,
            DapRequest::StackTrace => "stackTrace"@,
            DapRequest::Scopes => "scopes"@,
            DapRequest::Variables => "variables"@,
            DapRequest::StepIn => "stepIn"@,
            DapRequest::StepOut => "stepOut"@,
            DapRequest::Next => "next"@,
            DapRequest::Continue => "continue"@,
            DapRequest::Pause => "pause"@,
        }
    }

    /// Whether the request comes with arguments to decode.
    pub open spec fn has_arguments(self) -> bool {
        !(self is ConfigurationDone || self is Threads)
    }

    /// Tells whether the request comes with arguments to decode.
    pub fn takes_arguments(&self) -> (r: bool)
        ensures
            r == self.has_arguments(),
    {
        match self {
            DapRequest::ConfigurationDone => false,
            DapRequest::Threads => false,
            _ => true,
        }
    }
}

/// The request that a word names, if it names one.
pub open spec fn request_named(word: Seq<char>) -> Option<DapRequest> {
    if word == DapRequest::Initialize.name() {
        Some(DapRequest::Initialize)
    } else if word == DapRequest::Launch.name() {
        Some(DapRequest::Launch)
    } else if word == DapRequest::ConfigurationDone.name() {
        Some(DapRequest::ConfigurationDone)
    } else if word == DapRequest::SetBreakpoints.name() {
        Some(DapRequest::SetBreakpoints)
    } else if word == DapRequest::SetExceptionBreakpoints.name() {
        Some(DapRequest::SetExceptionBreakpoints)
    } else if word == DapRequest::Disconnect.name() {
        Some(DapRequest::Disconnect)
    } else if word == DapRequest::Threads.name() {
        Some(DapRequest::Threads)
    } else if word == DapRequest::StackTrace.name() {
        Some(DapRequest::StackTrace)
    } else if word == DapRequest::Scopes.name() {
        Some(DapRequest::Scopes)
    } else if word == DapRequest::Variables.name() {
        Some(DapRequest::Variables)
    } else if word == DapRequest::StepIn.name() {
        Some(DapRequest::StepIn)
    } else if word == DapRequest::StepOut.name() {
        Some(DapRequest::StepOut)
    } else if word == DapRequest::Next.name() {
        Some(DapRequest::Next)
    } else if word == DapRequest::Continue.name() {
        Some(DapRequest::Continue)
    } else if word == DapRequest::Pause.name() {
        Some(DapRequest::Pause)
    } else {
        None
    }
}

/// What is answered to a word that names no request.
pub open spec fn unsupported() -> Seq<char> {
    "unsupported request"@
}

/// Reads the request that the editor names, or refuses the word.
pub fn handle_message(request: &str) -> (r: Result<DapRequest, String>)
    ensures
        match request_named(request@) {
            Some(named) => r == Ok::<DapRequest, String>(named),
            None => r matches Err(reason) && reason@ == unsupported(),
        },
{
    if same_text(request, "initialize") {
        Ok(DapRequest::Initialize)
    } else if same_text(request, "launch") {
        Ok(DapRequest::Launch)
    } else if same_text(request, "configuration_done") {
        Ok(DapRequest::ConfigurationDone)
    } else if same_text(request, "setBreakpoints") {
        Ok(DapRequest::SetBreakpoints)
    } else if same_text(request, "setExceptionBreakpoints") {
        Ok(DapRequest::SetExceptionBreakpoints)
    } else if same_text(request, "disconnect") {
        Ok(DapRequest::Disconnect)
    } else if same_text(request, "threads") {
        Ok(DapRequest::Threads)
    } else if same_text(request, "stackTrace") {
        Ok(DapRequest::StackTrace)
    } else if same_text(request, "scopes") {
        Ok(DapRequest::Scopes)
    } else if same_text(request, "variables") {
        Ok(DapRequest::Variables)
    } else if same_text(request, "stepIn") {
        Ok(DapRequest::StepIn)
    } else if same_text(request, "stepOut") {
        Ok(DapRequest::StepOut)
    } else if same_text(request, "next") {
        Ok(DapRequest::Next)
    } else if same_text(request, "continue") {
        Ok(DapRequest::Continue)
    } else if same_text(request, "pause") {
        Ok(DapRequest::Pause)
    } else {
        Err(String::from_str("unsupported request"))
    }
}

/// Every request is read back from its own name.
pub proof fn lemma_request_is_read_from_its_name(request: DapRequest)
    ensures
        request_named(request.name()) == Some(request),
{
    reveal_strlit("initialize");
    reveal_strlit("launch");
    reveal_strlit("configuration_done");
    reveal_strlit("setBreakpoints");
    reveal_strlit("setExceptionBreakpoints");
    reveal_strlit("disconnect");
    reveal_strlit("threads");
    reveal_strlit("stackTrace");
    reveal_strlit("scopes");
    reveal_strlit("variables");
    reveal_strlit("stepIn");
    reveal_strlit("stepOut");
    reveal_strlit("next");
    reveal_strlit("continue");
    reveal_strlit("pause");
    // Names of one length differ in their first character, or in their
    // second where the first is the same.
    assert("initialize"@.len() == 10 && "initialize"@[0] == 'i');
    assert("disconnect"@.len() == 10 && "disconnect"@[0] == 'd');
    assert("stackTrace"@.len() == 10 && "stackTrace"@[0] == 's');
    assert("launch"@.len() == 6 && "launch"@[0] == 'l');
    assert("scopes"@.len() == 6 && "scopes"@[1] == 'c');
    assert("stepIn"@.len() == 6 && "stepIn"@[1] == 't' && "stepIn"@[0] == 's');
    assert("threads"@.len() == 7 && "threads"@[0] == 't');
    assert("stepOut"@.len() == 7 && "stepOut"@[0] == 's');
    assert("configuration_done"@.len() == 18);
    assert("setBreakpoints"@.len() == 14);
    assert("setExceptionBreakpoints"@.len() == 23);
    assert("variables"@.len() == 9);
    assert("next"@.len() == 4);
    assert("continue"@.len() == 8);
    assert("pause"@.len() == 5);
}

} // verus!
