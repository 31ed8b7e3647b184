//! The options of one run, and how they are resolved from raw values.

use vstd::prelude::*;

use crate::tool::{tool_named, Tool};

verus! {

/// What one run works on: which function to decompile, of which binary, built
/// how, and by which backend.
#[derive(Debug, Clone, PartialEq, Eq)]
pub struct Opts {
    /// Name of the function symbol to decompile.
    pub s: String,
    /// Build with optimisations.
    pub release: bool,
    /// Name of the binary to build and inspect.
    pub bin: String,
    /// Target triple of a cross build; absent for a native build.
    pub target: Option<String>,
    /// The backend that is asked.
    pub tool: Tool,
}

/// The mathematical content of an [`Opts`].
pub struct OptsView {
    pub s: Seq<char>,
    pub release: bool,
    pub bin: Seq<char>,
    pub target: Option<Seq<char>>,
    pub tool: Tool,
}

impl View for Opts {
    type V = OptsView;

    open spec fn view(&self) -> OptsView {
        OptsView {
            s: self.s@,
            release: self.release,
            bin: self.bin@,
            target: self.target.deep_view(),
            tool: self.tool,
        }
    }
}

impl OptsView {
    /// A record is valid when it names a symbol and a binary.
    pub open spec fn valid(self) -> bool {
        self.s.len() > 0 && self.bin.len() > 0
    }
}

/// Why raw values were refused as options.
#[derive(Debug, Clone, Copy, PartialEq, Eq, Structural)]
pub enum OptsError {
    /// The backend selector names no known backend.
    UnknownTool,
    /// The symbol name is empty.
    EmptySymbol,
    /// The binary name is empty.
    EmptyBinary,
}

/// The outcome of resolving raw values: the first fault found, looking at the
/// backend selector, then the symbol, then the binary; or the record that
/// holds exactly these values.
pub open spec fn resolved(
    s: Seq<char>,
    release: bool,
    bin: Seq<char>,
    target: Option<Seq<char>>,
    selector: Seq<char>,
) -> Result<OptsView, OptsError> {
    match tool_named(selector) {
        None => Err(OptsError::UnknownTool),
        Some(tool) => if s.len() == 0 {
            Err(OptsError::EmptySymbol)
        } else if bin.len() == 0 {
            Err(OptsError::EmptyBinary)
        } else {
            Ok(OptsView { s, release, bin, target, tool })
        },
    }
}

impl Opts {
    /// Whether this record names a symbol and a binary.
    pub open spec fn valid(&self) -> bool {
        self@.valid()
    }

    /// Resolves raw values into a valid record, or says what is wrong with
    /// them. A selector that names no backend is refused before anything else
    /// is looked at.
    pub fn resolve(
        s: String,
        release: bool,
        bin: String,
        target: Option<String>,
        selector: &str,
    ) -> (r: Result<Opts, OptsError>)
        ensures
            match resolved(s@, release, bin@, target.deep_view(), selector@) {
                Ok(view) => r is Ok && r->Ok_0@ == view && r->Ok_0.valid(),
                Err(fault) => r == Err::<Opts, OptsError>(fault),
            },
    {
        match Tool::from_str(selector) {
            Err(_) => Err(OptsError::UnknownTool),
            Ok(tool) => {
                if s.as_str().is_empty() {
                    Err(OptsError::EmptySymbol)
                } else if bin.as_str().is_empty() {
                    Err(OptsError::EmptyBinary)
                } else {
                    Ok(Opts { s, release, bin, target, tool })
                }
            },
        }
    }
}

} // verus!
