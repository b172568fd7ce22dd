//! The single failure type of the pipeline. Every failure is fatal to the
//! processing of the one type definition at hand; each variant carries what
//! its report needs, and `message` renders the report.

use vstd::prelude::*;

verus! {

/// One fatal failure of the pipeline.
#[derive(Debug)]
pub enum ProcError {
    /// The mandatory controlling attribute naming the generation script is
    /// missing or malformed on the processed type definition.
    MissingScriptAttr,
    /// An attribute's parenthesized arguments do not parse as
    /// comma-separated expressions; `outer` is the offending attribute's
    /// full textual form.
    AttrArgs { outer: String },
    /// The descriptor could not be serialized into the runtime or bound as
    /// the global `var`.
    Bind { var: String, detail: String },
    /// The script failed to load or raised a runtime error; `path` locates
    /// the script and `detail` is the runtime's own message.
    Script { path: String, detail: String },
}

/// Spec-level failure.
pub enum ProcErrorV {
    MissingScriptAttr,
    AttrArgs { outer: Seq<char> },
    Bind { var: Seq<char>, detail: Seq<char> },
    Script { path: Seq<char>, detail: Seq<char> },
}

impl View for ProcError {
    type V = ProcErrorV;

    open spec fn view(&self) -> ProcErrorV {
        match self {
            ProcError::MissingScriptAttr => ProcErrorV::MissingScriptAttr,
            ProcError::AttrArgs { outer } => ProcErrorV::AttrArgs { outer: outer@ },
            ProcError::Bind { var, detail } => ProcErrorV::Bind { var: var@, detail: detail@ },
            ProcError::Script { path, detail } => ProcErrorV::Script {
                path: path@,
                detail: detail@,
            },
        }
    }
}

/// The report text of a failure.
pub open spec fn error_text(e: ProcErrorV) -> Seq<char> {
    match e {
        ProcErrorV::MissingScriptAttr => "Failed to find script path. Specify #[luaproc(\"script_path\")]"@,
        ProcErrorV::AttrArgs { outer } => "can't parse attribute arguments in "@ + outer,
        ProcErrorV::Bind { var, detail } => "can't bind Lua global "@ + var + ": "@ + detail,
        ProcErrorV::Script { path, detail } => "error in Lua script "@ + path + ": "@ + detail,
    }
}

impl ProcError {
    /// Renders the failure report.
    pub fn message(&self) -> (m: String)
        ensures
            m@ == error_text(self@),
    {
        match self {
            ProcError::MissingScriptAttr => {
                let m = "Failed to find script path. Specify #[luaproc(\"script_path\")]".to_owned();
                m
            },
            ProcError::AttrArgs { outer } => {
                let mut m = "can't parse attribute arguments in ".to_owned();
                m.append(outer.as_str());
                m
            },
            ProcError::Bind { var, detail } => {
                let mut m = "can't bind Lua global ".to_owned();
                m.append(var.as_str());
                m.append(": ");
                m.append(detail.as_str());
                proof {
                    assert(m@ =~= error_text(self@));
                }
                m
            },
            ProcError::Script { path, detail } => {
                let mut m = "error in Lua script ".to_owned();
                m.append(path.as_str());
                m.append(": ");
                m.append(detail.as_str());
                proof {
                    assert(m@ =~= error_text(self@));
                }
                m
            },
        }
    }
}

} // verus!
