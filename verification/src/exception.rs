//! The exception bridge.
//!
//! Errors cross the boundary in both directions. A host exception raised
//! inside a host callable becomes a script exception carrying three marker
//! properties (original class name, file and line); a script-level thrown
//! value caught around an engine call is classified and rebuilt as a host
//! exception with message, source location and — when the markers are
//! present — the original host exception reconstructed as its cause.

use vstd::prelude::*;

use crate::value::BridgedModel;
use crate::value::BridgedValue;
use crate::value::bridged_model_entries;
use crate::value::lemma_bridged_model_entries;

verus! {

/// A host exception as the bridge carries it: the message and the three
/// reconstruction markers that let the other side rebuild the original.
#[derive(Debug, PartialEq, Eq)]
pub struct ThrowableInfo {
    pub message: String,
    /// The host class name of the original exception.
    pub class_name: Option<String>,
    /// The host source file of the original exception.
    pub file: Option<String>,
    /// The host source line of the original exception.
    pub line: Option<i32>,
}

/// Mathematical mirror of `ThrowableInfo`.
pub struct ThrowableModel {
    pub message: Seq<char>,
    pub class_name: Option<Seq<char>>,
    pub file: Option<Seq<char>>,
    pub line: Option<i32>,
}

pub open spec fn opt_string_model(s: Option<String>) -> Option<Seq<char>> {
    match s {
        Some(s) => Some(s@),
        None => None,
    }
}

impl View for ThrowableInfo {
    type V = ThrowableModel;

    open spec fn view(&self) -> ThrowableModel {
        ThrowableModel {
            message: self.message@,
            class_name: opt_string_model(self.class_name),
            file: opt_string_model(self.file),
            line: self.line,
        }
    }
}

/// A script-level thrown value, classified by shape.
#[derive(Debug, PartialEq, Eq)]
pub enum CaughtScript {
    /// A structured exception object and what could be read off it,
    /// including the three marker properties if the exception originally
    /// wrapped a host exception.
    ExceptionObject {
        message: Option<String>,
        stack: Option<String>,
        file: Option<String>,
        line: Option<i32>,
        host_class: Option<String>,
        host_file: Option<String>,
        host_line: Option<i32>,
    },
    /// A plain string was thrown.
    Text(String),
    /// Some other value was thrown.
    Opaque,
}

/// Mathematical mirror of `CaughtScript`.
pub enum CaughtModel {
    ExceptionObject {
        message: Option<Seq<char>>,
        stack: Option<Seq<char>>,
        file: Option<Seq<char>>,
        line: Option<i32>,
        host_class: Option<Seq<char>>,
        host_file: Option<Seq<char>>,
        host_line: Option<i32>,
    },
    Text(Seq<char>),
    Opaque,
}

impl View for CaughtScript {
    type V = CaughtModel;

    open spec fn view(&self) -> CaughtModel {
        match self {
            CaughtScript::ExceptionObject {
                message,
                stack,
                file,
                line,
                host_class,
                host_file,
                host_line,
            } => CaughtModel::ExceptionObject {
                message: opt_string_model(*message),
                stack: opt_string_model(*stack),
                file: opt_string_model(*file),
                line: *line,
                host_class: opt_string_model(*host_class),
                host_file: opt_string_model(*host_file),
                host_line: *host_line,
            },
            CaughtScript::Text(s) => CaughtModel::Text(s@),
            CaughtScript::Opaque => CaughtModel::Opaque,
        }
    }
}

/// What an engine call reported when it failed: either a script-level
/// thrown value, or another engine error kind (syntax error, stack
/// overflow, interrupted execution) reduced to its description.
#[derive(Debug, PartialEq, Eq)]
pub enum EngineFailure {
    Thrown(CaughtScript),
    Description(String),
}

/// Mathematical mirror of `EngineFailure`.
pub enum EngineFailureModel {
    Thrown(CaughtModel),
    Description(Seq<char>),
}

impl View for EngineFailure {
    type V = EngineFailureModel;

    open spec fn view(&self) -> EngineFailureModel {
        match self {
            EngineFailure::Thrown(c) => EngineFailureModel::Thrown(c@),
            EngineFailure::Description(s) => EngineFailureModel::Description(s@),
        }
    }
}

/// The host exception the bridge must raise, to be reconstructed as the
/// cause of the raised exception when present.
#[derive(Debug, PartialEq, Eq)]
pub struct CauseInfo {
    pub class_name: String,
    pub message: String,
}

/// Mathematical mirror of `CauseInfo`.
pub struct CauseModel {
    pub class_name: Seq<char>,
    pub message: Seq<char>,
}

impl View for CauseInfo {
    type V = CauseModel;

    open spec fn view(&self) -> CauseModel {
        CauseModel { class_name: self.class_name@, message: self.message@ }
    }
}

/// The host exception that surfaces for a failed engine call.
#[derive(Debug, PartialEq, Eq)]
pub struct HostException {
    pub message: String,
    /// Source file name; the placeholder when the exception names none.
    pub file: String,
    pub line: Option<i32>,
    pub stack: Option<String>,
    /// The original host exception to attach as cause, when the thrown
    /// value carried the reconstruction markers.
    pub cause: Option<CauseInfo>,
}

/// Mathematical mirror of `HostException`.
pub struct HostExceptionModel {
    pub message: Seq<char>,
    pub file: Seq<char>,
    pub line: Option<i32>,
    pub stack: Option<Seq<char>>,
    pub cause: Option<CauseModel>,
}

impl View for HostException {
    type V = HostExceptionModel;

    open spec fn view(&self) -> HostExceptionModel {
        HostExceptionModel {
            message: self.message@,
            file: self.file@,
            line: self.line,
            stack: opt_string_model(self.stack),
            cause: match self.cause {
                Some(c) => Some(c@),
                None => None,
            },
        }
    }
}

/// What `bridge_exception` returns: a structured exception keeps its
/// message, stack text and location, the host markers override the
/// script-side location and reconstruct the cause; a thrown string
/// becomes a message-only exception; any other thrown value becomes the
/// generic unknown-exception message; every other engine error carries
/// its description. The file name defaults to the placeholder when
/// nothing names one.
pub open spec fn host_exception_model(f: EngineFailureModel) -> HostExceptionModel {
    match f {
        EngineFailureModel::Thrown(c) => match c {
            CaughtModel::ExceptionObject {
                message,
                stack,
                file,
                line,
                host_class,
                host_file,
                host_line,
            } => HostExceptionModel {
                message: match message {
                    Some(m) => m,
                    None => Seq::empty(),
                },
                file: match host_file {
                    Some(hf) => hf,
                    None => match file {
                        Some(jf) => jf,
                        None => "<script>"@,
                    },
                },
                line: match host_line {
                    Some(hl) => Some(hl),
                    None => line,
                },
                stack,
                cause: match host_class {
                    Some(cl) => Some(
                        CauseModel {
                            class_name: cl,
                            message: match message {
                                Some(m) => m,
                                None => Seq::empty(),
                            },
                        },
                    ),
                    None => None,
                },
            },
            CaughtModel::Text(s) => HostExceptionModel {
                message: s,
                file: "<script>"@,
                line: None,
                stack: None,
                cause: None,
            },
            CaughtModel::Opaque => HostExceptionModel {
                message: "unknown script exception"@,
                file: "<script>"@,
                line: None,
                stack: None,
                cause: None,
            },
        },
        EngineFailureModel::Description(s) => HostExceptionModel {
            message: s,
            file: "<script>"@,
            line: None,
            stack: None,
            cause: None,
        },
    }
}

/// Classifies a failed engine call and builds the host exception to
/// raise; total, never drops an error silently.
pub fn bridge_exception(f: &EngineFailure) -> (e: HostException)
    ensures
        e@ == host_exception_model(f@),
{
    match f {
        EngineFailure::Thrown(c) => match c {
            CaughtScript::ExceptionObject {
                message,
                stack,
                file,
                line,
                host_class,
                host_file,
                host_line,
            } => {
                let msg: String = match message {
                    Some(m) => m.clone(),
                    None => String::new(),
                };
                let f: String = match host_file {
                    Some(hf) => hf.clone(),
                    None => match file {
                        Some(jf) => jf.clone(),
                        None => placeholder_file(),
                    },
                };
                let l: Option<i32> = match host_line {
                    Some(hl) => Some(*hl),
                    None => *line,
                };
                let cause: Option<CauseInfo> = match host_class {
                    Some(cl) => Some(
                        CauseInfo { class_name: cl.clone(), message: msg.clone() },
                    ),
                    None => None,
                };
                HostException {
                    message: msg,
                    file: f,
                    line: l,
                    stack: match stack {
                        Some(s) => Some(s.clone()),
                        None => None,
                    },
                    cause,
                }
            },
            CaughtScript::Text(s) => HostException {
                message: s.clone(),
                file: placeholder_file(),
                line: None,
                stack: None,
                cause: None,
            },
            CaughtScript::Opaque => HostException {
                message: unknown_exception_message(),
                file: placeholder_file(),
                line: None,
                stack: None,
                cause: None,
            },
        },
        EngineFailure::Description(s) => HostException {
            message: s.clone(),
            file: placeholder_file(),
            line: None,
            stack: None,
            cause: None,
        },
    }
}

/// The placeholder used when no source file name is known.
pub fn placeholder_file() -> (s: String)
    ensures
        s@ == "<script>"@,
{
    let s = "<script>";
    s.to_owned()
}

/// The message of the generic host exception for a thrown value that is
/// neither a structured exception nor a string.
pub fn unknown_exception_message() -> (s: String)
    ensures
        s@ == "unknown script exception"@,
{
    let s = "unknown script exception";
    s.to_owned()
}

// ---------------------------------------------------------------------------
// Host exception to script and back.
// ---------------------------------------------------------------------------
/// The names of the three marker properties set on a script exception
/// that wraps a host exception.
pub fn marker_class_property() -> (s: String)
    ensures
        s@ == "original_java_exception_class"@,
{
    let s = "original_java_exception_class";
    s.to_owned()
}

pub fn marker_file_property() -> (s: String)
    ensures
        s@ == "original_java_exception_file"@,
{
    let s = "original_java_exception_file";
    s.to_owned()
}

pub fn marker_line_property() -> (s: String)
    ensures
        s@ == "original_java_exception_line"@,
{
    let s = "original_java_exception_line";
    s.to_owned()
}

/// The marker properties to set on the script exception that carries a
/// host exception into script: one property per marker the throwable
/// holds, in the order class, file, line.
pub open spec fn markers_model(t: ThrowableModel) -> Seq<(Seq<char>, BridgedModel)> {
    (match t.class_name {
        Some(c) => seq![
            ("original_java_exception_class"@, BridgedModel::Str(c)),
        ],
        None => Seq::empty(),
    }) + (match t.file {
        Some(f) => seq![("original_java_exception_file"@, BridgedModel::Str(f))],
        None => Seq::empty(),
    }) + (match t.line {
        Some(l) => seq![("original_java_exception_line"@, BridgedModel::Int(l))],
        None => Seq::empty(),
    })
}

/// Builds the marker properties for one host exception; the glue sets
/// them on the script exception it raises, beside its message.
pub fn marker_properties(t: &ThrowableInfo) -> (r: Vec<(String, BridgedValue)>)
    ensures
        bridged_model_entries(r@) == markers_model(t@),
{
    let mut r: Vec<(String, BridgedValue)> = Vec::new();
    match &t.class_name {
        Some(c) => {
            r.push((marker_class_property(), BridgedValue::Str(c.clone())));
        },
        None => {},
    }
    match &t.file {
        Some(f) => {
            r.push((marker_file_property(), BridgedValue::Str(f.clone())));
        },
        None => {},
    }
    match &t.line {
        Some(l) => {
            r.push((marker_line_property(), BridgedValue::Int(*l)));
        },
        None => {},
    }
    proof {
        lemma_bridged_model_entries(r@);
        assert(bridged_model_entries(r@) =~= markers_model(t@));
    }
    r
}

/// The script exception that materializing `ThrowableInfo` produces, as
/// the exception bridge later sees it: the script exception's message is
/// the host message, and the three marker properties hold exactly the
/// class, file and line carried by the throwable. The engine contributes
/// the script-side stack, file and line, which this model takes as
/// parameters.
pub open spec fn caught_of_markers(
    t: ThrowableModel,
    stack: Option<Seq<char>>,
    js_file: Option<Seq<char>>,
    js_line: Option<i32>,
) -> CaughtModel {
    CaughtModel::ExceptionObject {
        message: Some(t.message),
        stack,
        file: js_file,
        line: js_line,
        host_class: t.class_name,
        host_file: t.file,
        host_line: t.line,
    }
}

/// Exception round trip: a host exception thrown inside a host callable,
/// turned into a script exception carrying the markers, caught and
/// rebuilt by the bridge, surfaces with the original message and with a
/// cause of the original class and message — whatever stack or location
/// the script side added meanwhile.
pub proof fn lemma_exception_round_trip(
    t: ThrowableModel,
    stack: Option<Seq<char>>,
    js_file: Option<Seq<char>>,
    js_line: Option<i32>,
)
    requires
        t.class_name is Some,
    ensures
        ({
            let e = host_exception_model(
                EngineFailureModel::Thrown(caught_of_markers(t, stack, js_file, js_line)),
            );
            &&& e.message == t.message
            &&& e.cause is Some
            &&& e.cause->0.class_name == t.class_name->0
            &&& e.cause->0.message == t.message
            &&& t.file is Some ==> e.file == t.file->0
            &&& t.line is Some ==> e.line == t.line
        }),
{
}

} // verus!
