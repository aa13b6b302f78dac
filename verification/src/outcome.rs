//! The results that the operations report, and their JSON text.

use vstd::prelude::*;
use vstd::string::StringExecFns;
use crate::interchange::json_quoted;
use crate::interchange::quote_text;
use crate::text::texts;

verus! {

/// Why a batch of templates was not compiled.
#[derive(Clone, Copy, Debug, PartialEq, Eq, Structural)]
pub enum CompileErrorType {
    ParseError,
    MissingDependency,
    CompileError,
    SchemaValidationError,
}

/// Why a template was not rendered.
#[derive(Clone, Copy, Debug, PartialEq, Eq, Structural)]
pub enum RenderErrorType {
    ParseError,
    RenderError,
}

/// A failure to compile.
#[derive(Debug)]
pub struct CompileError {
    pub error_type: CompileErrorType,
    pub message: String,
    pub missing_dependencies: Option<Vec<String>>,
}

/// A failure to render.
#[derive(Debug)]
pub struct RenderError {
    pub error_type: RenderErrorType,
    pub message: String,
}

/// The result of compiling a batch of templates.
#[derive(Debug)]
pub enum CompileResult {
    Success,
    Error { error: CompileError },
}

/// The result of rendering a template.
#[derive(Debug)]
pub enum RenderResult {
    Success { result: String },
    Error { error: RenderError },
}

/// The result of registering a component.
#[derive(Debug)]
pub enum RegisterResult {
    Success,
    Error { message: String },
}

/// The value of a `CompileError`.
pub ghost struct CompileErrorView {
    pub error_type: CompileErrorType,
    pub message: Seq<char>,
    pub missing_dependencies: Option<Seq<Seq<char>>>,
}

/// The value of a `RenderError`.
pub ghost struct RenderErrorView {
    pub error_type: RenderErrorType,
    pub message: Seq<char>,
}

/// The value of a `CompileResult`.
pub ghost enum CompileResultView {
    Success,
    Error { error: CompileErrorView },
}

/// The value of a `RenderResult`.
pub ghost enum RenderResultView {
    Success { result: Seq<char> },
    Error { error: RenderErrorView },
}

/// The value of a `RegisterResult`.
pub ghost enum RegisterResultView {
    Success,
    Error { message: Seq<char> },
}

impl View for CompileError {
    type V = CompileErrorView;

    open spec fn view(&self) -> CompileErrorView {
        CompileErrorView {
            error_type: self.error_type,
            message: self.message@,
            missing_dependencies: match self.missing_dependencies {
                Some(names) => Some(texts(names@)),
                None => None,
            },
        }
    }
}

impl View for RenderError {
    type V = RenderErrorView;

    open spec fn view(&self) -> RenderErrorView {
        RenderErrorView { error_type: self.error_type, message: self.message@ }
    }
}

impl View for CompileResult {
    type V = CompileResultView;

    open spec fn view(&self) -> CompileResultView {
        match self {
            CompileResult::Success => CompileResultView::Success,
            CompileResult::Error { error } => CompileResultView::Error { error: error@ },
        }
    }
}

impl View for RenderResult {
    type V = RenderResultView;

    open spec fn view(&self) -> RenderResultView {
        match self {
            RenderResult::Success { result } => RenderResultView::Success { result: result@ },
            RenderResult::Error { error } => RenderResultView::Error { error: error@ },
        }
    }
}

impl View for RegisterResult {
    type V = RegisterResultView;

    open spec fn view(&self) -> RegisterResultView {
        match self {
            RegisterResult::Success => RegisterResultView::Success,
            RegisterResult::Error { message } => RegisterResultView::Error { message: message@ },
        }
    }
}

impl CompileErrorType {
    /// The JSON string that stands for this kind.
    pub open spec fn encoded(self) -> Seq<char> {
        match self {
            CompileErrorType::ParseError => "\"ParseError\""@,
            CompileErrorType::MissingDependency => "\"MissingDependency\""@,
            CompileErrorType::CompileError => "\"CompileError\""@,
            CompileErrorType::SchemaValidationError => "\"SchemaValidationError\""@,
        }
    }

    /// The JSON string that stands for this kind.
    fn encode(self) -> (text: &'static str)
        ensures
            text@ == self.encoded(),
    {
        match self {
            CompileErrorType::ParseError => "\"ParseError\"",
            CompileErrorType::MissingDependency => "\"MissingDependency\"",
            CompileErrorType::CompileError => "\"CompileError\"",
            CompileErrorType::SchemaValidationError => "\"SchemaValidationError\"",
        }
    }
}

impl RenderErrorType {
    /// The JSON string that stands for this kind.
    pub open spec fn encoded(self) -> Seq<char> {
        match self {
            RenderErrorType::ParseError => "\"ParseError\""@,
            RenderErrorType::RenderError => "\"RenderError\""@,
        }
    }

    /// The JSON string that stands for this kind.
    fn encode(self) -> (text: &'static str)
        ensures
            text@ == self.encoded(),
    {
        match self {
            RenderErrorType::ParseError => "\"ParseError\"",
            RenderErrorType::RenderError => "\"RenderError\"",
        }
    }
}

/// The JSON strings of the first `n` of `names`, with commas between them.
pub open spec fn quoted_list(names: Seq<Seq<char>>, n: nat) -> Seq<char>
    decreases n,
{
    if n == 0 || n > names.len() {
        Seq::empty()
    } else if n == 1 {
        json_quoted(names[0])
    } else {
        quoted_list(names, (n - 1) as nat) + ","@ + json_quoted(names[n - 1])
    }
}

/// The JSON array of `names`.
pub open spec fn encoded_names(names: Seq<Seq<char>>) -> Seq<char> {
    "["@ + quoted_list(names, names.len()) + "]"@
}

/// The JSON array of `names`.
fn encode_names(names: &Vec<String>) -> (text: String)
    ensures
        text@ == encoded_names(texts(names@)),
{
    let mut text = String::from_str("[");
    let n: usize = names.len();
    let mut i: usize = 0;
    while i < n
        invariant
            n == names.len(),
            i <= n,
            text@ == "["@ + quoted_list(texts(names@), i as nat),
        decreases n - i,
    {
        assert(texts(names@)[i as int] == names@[i as int]@);
        if i > 0 {
            text.append(",");
        }
        let quoted = quote_text(names[i].as_str());
        text.append(quoted.as_str());
        i = i + 1;
    }
    text.append("]");
    text
}

impl CompileErrorView {
    /// The JSON object of this failure. The list of missing dependencies is
    /// left out where there is none.
    pub open spec fn encoded(self) -> Seq<char> {
        "{\"error_type\":"@ + self.error_type.encoded() + ",\"message\":"@ + json_quoted(
            self.message,
        ) + match self.missing_dependencies {
            Some(names) => ",\"missing_dependencies\":"@ + encoded_names(names),
            None => Seq::empty(),
        } + "}"@
    }
}

impl RenderErrorView {
    /// The JSON object of this failure.
    pub open spec fn encoded(self) -> Seq<char> {
        "{\"error_type\":"@ + self.error_type.encoded() + ",\"message\":"@ + json_quoted(
            self.message,
        ) + "}"@
    }
}

impl CompileResultView {
    /// The JSON object of this result.
    pub open spec fn encoded(self) -> Seq<char> {
        match self {
            CompileResultView::Success => "{\"type\":\"Success\"}"@,
            CompileResultView::Error { error } => "{\"type\":\"Error\",\"error\":"@
                + error.encoded() + "}"@,
        }
    }
}

impl RenderResultView {
    /// The JSON object of this result.
    pub open spec fn encoded(self) -> Seq<char> {
        match self {
            RenderResultView::Success { result } => "{\"type\":\"Success\",\"result\":"@
                + json_quoted(result) + "}"@,
            RenderResultView::Error { error } => "{\"type\":\"Error\",\"error\":"@ + error.encoded()
                + "}"@,
        }
    }
}

impl RegisterResultView {
    /// The JSON object of this result.
    pub open spec fn encoded(self) -> Seq<char> {
        match self {
            RegisterResultView::Success => "{\"type\":\"Success\"}"@,
            RegisterResultView::Error { message } => "{\"type\":\"Error\",\"message\":"@
                + json_quoted(message) + "}"@,
        }
    }
}

impl CompileError {
    /// The JSON text of this failure.
    pub fn encode(&self) -> (text: String)
        ensures
            text@ == self@.encoded(),
    {
        let mut text = String::from_str("{\"error_type\":");
        text.append(self.error_type.encode());
        text.append(",\"message\":");
        let quoted = quote_text(self.message.as_str());
        text.append(quoted.as_str());
        match &self.missing_dependencies {
            Some(names) => {
                text.append(",\"missing_dependencies\":");
                let list = encode_names(names);
                text.append(list.as_str());
            },
            None => {
                assert(text@ + Seq::<char>::empty() == text@);
            },
        }
        text.append("}");
        text
    }
}

impl RenderError {
    /// The JSON text of this failure.
    pub fn encode(&self) -> (text: String)
        ensures
            text@ == self@.encoded(),
    {
        let mut text = String::from_str("{\"error_type\":");
        text.append(self.error_type.encode());
        text.append(",\"message\":");
        let quoted = quote_text(self.message.as_str());
        text.append(quoted.as_str());
        text.append("}");
        text
    }
}

impl CompileResult {
    /// The JSON text of this result.
    pub fn encode(&self) -> (text: String)
        ensures
            text@ == self@.encoded(),
    {
        match self {
            CompileResult::Success => String::from_str("{\"type\":\"Success\"}"),
            CompileResult::Error { error } => {
                let mut text = String::from_str("{\"type\":\"Error\",\"error\":");
                let inner = error.encode();
                text.append(inner.as_str());
                text.append("}");
                text
            },
        }
    }
}

impl RenderResult {
    /// The JSON text of this result.
    pub fn encode(&self) -> (text: String)
        ensures
            text@ == self@.encoded(),
    {
        match self {
            RenderResult::Success { result } => {
                let mut text = String::from_str("{\"type\":\"Success\",\"result\":");
                let quoted = quote_text(result.as_str());
                text.append(quoted.as_str());
                text.append("}");
                text
            },
            RenderResult::Error { error } => {
                let mut text = String::from_str("{\"type\":\"Error\",\"error\":");
                let inner = error.encode();
                text.append(inner.as_str());
                text.append("}");
                text
            },
        }
    }
}

impl RegisterResult {
    /// The JSON text of this result.
    pub fn encode(&self) -> (text: String)
        ensures
            text@ == self@.encoded(),
    {
        match self {
            RegisterResult::Success => String::from_str("{\"type\":\"Success\"}"),
            RegisterResult::Error { message } => {
                let mut text = String::from_str("{\"type\":\"Error\",\"message\":");
                let quoted = quote_text(message.as_str());
                text.append(quoted.as_str());
                text.append("}");
                text
            },
        }
    }
}

} // verus!
