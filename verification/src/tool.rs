//! The reverse-engineering backends and the two requests sent to them.

use vstd::prelude::*;
use vstd::string::StringExecFns;

use crate::text::same_text;

verus! {

/// One of the two supported backends. Both are driven in the same way: they
/// are started on a binary, answer text requests with text, and are closed.
#[derive(Debug, Clone, Copy, PartialEq, Eq, Structural)]
pub enum Tool {
    Rizin,
    Radare2,
}

/// The backend that a selector names, if any. Matching is exact and
/// case-sensitive.
pub open spec fn tool_named(selector: Seq<char>) -> Option<Tool> {
    if selector == "rizin"@ {
        Some(Tool::Rizin)
    } else if selector == "radare2"@ {
        Some(Tool::Radare2)
    } else {
        None
    }
}

/// Each of the two selectors names its own backend, and no other string
/// names one.
pub proof fn selectors_name_their_backend()
    ensures
        tool_named("rizin"@) == Some(Tool::Rizin),
        tool_named("radare2"@) == Some(Tool::Radare2),
        forall|selector: Seq<char>|
            selector != "rizin"@ && selector != "radare2"@ ==> tool_named(selector) is None,
{
    reveal_strlit("rizin");
    reveal_strlit("radare2");
    assert("rizin"@.len() != "radare2"@.len());
}

/// The request that makes a backend analyse the whole binary.
pub open spec fn analysis_text() -> Seq<char> {
    "aa"@
}

/// The request that decompiles the function at the address of the first
/// symbol whose name matches `symbol`. The symbol is inserted as it is.
pub open spec fn decompile_text(symbol: Seq<char>) -> Seq<char> {
    "pdg @ $(afl~"@ + symbol + "[0])"@
}

impl Tool {
    /// Resolves a backend selector: `"rizin"` and `"radare2"` give their
    /// variant, every other string is refused with the message
    /// `"unknown tool"`.
    pub fn from_str(s: &str) -> (r: Result<Tool, String>)
        ensures
            match tool_named(s@) {
                Some(tool) => r == Ok::<Tool, String>(tool),
                None => r is Err && r->Err_0@ == "unknown tool"@,
            },
    {
        if same_text(s, "rizin") {
            Ok(Tool::Rizin)
        } else if same_text(s, "radare2") {
            Ok(Tool::Radare2)
        } else {
            Err(String::from_str("unknown tool"))
        }
    }

    /// The first request of a session: analyse the whole binary.
    pub fn analysis_command(&self) -> (request: String)
        ensures
            request@ == analysis_text(),
    {
        String::from_str("aa")
    }

    /// The second request of a session: decompile the function named
    /// `symbol`. Both backends are sent the same text.
    pub fn decompile_query(&self, symbol: &str) -> (request: String)
        ensures
            request@ == decompile_text(symbol@),
    {
        let mut request = String::from_str("pdg @ $(afl~");
        request.append(symbol);
        request.append("[0])");
        request
    }
}

} // verus!
