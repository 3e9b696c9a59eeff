//! Running the code of a worker, and what is said when that fails.

use vstd::prelude::*;

use crate::limits::{ReasonView, TerminationReason};
use crate::snapshot::{has_magic, is_code_cache, unpack_code_cache, unpacked};
use crate::text::{concat2, concat3, decimal, decimal_text, text_else, text_or_else};

verus! {

/// The code of a worker.
pub enum WorkerCode {
    /// Source text.
    JavaScript(String),
    /// A snapshot of a heap, or source packed together with compiled code.
    Snapshot(Vec<u8>),
    /// A module in binary form.
    WebAssembly(Vec<u8>),
}

/// The source that an engine of its own evaluates.
pub fn evaluated_source(code: &WorkerCode) -> (r: Result<&str, String>)
    ensures
        match *code {
            WorkerCode::JavaScript(js) => r matches Ok(s) && s@ == js@,
            WorkerCode::Snapshot(_) => r matches Err(e) && e@
                == "Snapshot worker code evaluation not supported yet"@,
            WorkerCode::WebAssembly(_) => r matches Err(e) && e@
                == "V8 runtime only supports JavaScript code"@,
        },
{
    match code {
        WorkerCode::JavaScript(js) => Ok(js.as_str()),
        WorkerCode::Snapshot(_) => Err(
            "Snapshot worker code evaluation not supported yet".to_string(),
        ),
        WorkerCode::WebAssembly(_) => Err("V8 runtime only supports JavaScript code".to_string()),
    }
}

/// What a pooled engine evaluates.
pub enum PooledSource<'a> {
    /// Source text.
    Plain(&'a str),
    /// Source text, and the code that was compiled from it.
    Cached(&'a str, &'a [u8]),
}

/// The message of code that could not be evaluated.
pub open spec fn evaluation_failed(error: Seq<char>) -> ReasonView {
    ReasonView::Exception("Script evaluation failed: "@ + error)
}

/// The reason for which a worker stops whose code could not be evaluated.
pub fn evaluation_failure(error: &str) -> (r: TerminationReason)
    ensures
        r@ == evaluation_failed(error@),
{
    TerminationReason::Exception(concat2("Script evaluation failed: ", error))
}

/// What a pooled engine evaluates of some code.
pub fn pooled_source(code: &WorkerCode) -> (r: Result<PooledSource<'_>, TerminationReason>)
    ensures
        match *code {
            WorkerCode::JavaScript(js) => r matches Ok(PooledSource::Plain(s)) && s@ == js@,
            WorkerCode::Snapshot(data) => match unpacked(data@) {
                Some((source, cache)) => r matches Ok(PooledSource::Cached(s, c)) && s@ == source
                    && c@ == cache,
                None => r matches Err(e) && e@ == evaluation_failed(
                    "Failed to unpack code cache bundle"@,
                ),
            },
            WorkerCode::WebAssembly(_) => r matches Err(e) && e@ == ReasonView::InitializationError(
                "V8 runtime only supports JavaScript code"@,
            ),
        },
{
    match code {
        WorkerCode::JavaScript(js) => Ok(PooledSource::Plain(js.as_str())),
        WorkerCode::Snapshot(data) => match unpack_code_cache(data.as_slice()) {
            Some((source, cache)) => Ok(PooledSource::Cached(source, cache)),
            None => Err(evaluation_failure("Failed to unpack code cache bundle")),
        },
        WorkerCode::WebAssembly(_) => Err(
            TerminationReason::InitializationError(
                "V8 runtime only supports JavaScript code".to_string(),
            ),
        ),
    }
}

/// The heap that an engine starts from, where the code is a snapshot of one. Packed code is not.
pub fn heap_snapshot(code: &WorkerCode) -> (r: Option<&Vec<u8>>)
    ensures
        r == (match *code {
            WorkerCode::Snapshot(data) => if has_magic(data@) {
                None
            } else {
                Some(&data)
            },
            _ => None,
        }),
{
    match code {
        WorkerCode::Snapshot(data) => if is_code_cache(data.as_slice()) {
            None
        } else {
            Some(data)
        },
        _ => None,
    }
}

/// Where an engine found an error in some code.
pub struct CompileMessage {
    pub line: Option<usize>,
    pub column: usize,
    /// The line of the source.
    pub source_line: Option<String>,
}

/// What is said of code that does not compile. The outer option says whether the engine has
/// thrown, the inner one holds what was thrown as text.
pub open spec fn compile_message(
    exception: Option<Option<String>>,
    message: Option<CompileMessage>,
) -> Seq<char> {
    match (exception, message) {
        (None, _) => "Failed to compile script"@,
        (Some(thrown), Some(m)) => "SyntaxError at line "@ + decimal(
            match m.line {
                Some(n) => n as nat,
                None => 0,
            },
        ) + ", column "@ + decimal(m.column as nat) + ": "@ + text_else(thrown, "Unknown error"@)
            + "\n  > "@ + text_else(m.source_line, ""@),
        (Some(thrown), None) => "SyntaxError: "@ + text_else(thrown, "Unknown error"@),
    }
}

/// What is said of code that does not compile.
pub fn compile_error_text(
    exception: Option<Option<String>>,
    message: Option<CompileMessage>,
) -> (r: String)
    ensures
        r@ == compile_message(exception, message),
{
    match exception {
        None => "Failed to compile script".to_string(),
        Some(thrown) => {
            let text = text_or_else(thrown, "Unknown error");
            match message {
                None => concat2("SyntaxError: ", text.as_str()),
                Some(m) => {
                    let line: usize = match m.line {
                        Some(n) => n,
                        None => 0,
                    };
                    let line_text = decimal_text(line as u64);
                    let column_text = decimal_text(m.column as u64);
                    let source_line = text_or_else(m.source_line, "");
                    let mut s = "SyntaxError at line ".to_string();
                    s.append(line_text.as_str());
                    s.append(", column ");
                    s.append(column_text.as_str());
                    s.append(": ");
                    s.append(text.as_str());
                    s.append("\n  > ");
                    s.append(source_line.as_str());
                    s
                },
            }
        },
    }
}

/// What is said of code that throws when it runs. `stack` is the stack trace, where there is one
/// and where it is text.
pub open spec fn run_message(
    exception: Option<Option<String>>,
    stack: Option<Option<String>>,
) -> Seq<char> {
    match exception {
        None => "Failed to execute script"@,
        Some(thrown) => {
            let trace = match stack {
                Some(s) => text_else(s, ""@),
                None => ""@,
            };
            if trace.len() == 0 {
                text_else(thrown, "Unknown error"@)
            } else {
                text_else(thrown, "Unknown error"@) + "\n"@ + trace
            }
        },
    }
}

/// What is said of code that throws when it runs.
pub fn run_error_text(exception: Option<Option<String>>, stack: Option<Option<String>>) -> (r:
    String)
    ensures
        r@ == run_message(exception, stack),
{
    match exception {
        None => "Failed to execute script".to_string(),
        Some(thrown) => {
            let text = text_or_else(thrown, "Unknown error");
            let trace = match stack {
                Some(s) => text_or_else(s, ""),
                None => "".to_string(),
            };
            if trace.as_str().is_empty() {
                text
            } else {
                concat3(text.as_str(), "\n", trace.as_str())
            }
        },
    }
}

/// Where the evaluation of a script in a context failed.
#[derive(Debug, Clone, Copy, PartialEq, Eq, Structural)]
pub enum EvalStep {
    /// The source could not be handed to the engine.
    MakeString,
    /// The source does not compile.
    Compile,
    /// The source does not compile with the code that was packed with it.
    CompileCached,
    /// The script throws.
    Run,
}

/// What is said of a script that fails in a context, where nothing was thrown as text.
pub open spec fn step_text(step: EvalStep) -> Seq<char> {
    match step {
        EvalStep::MakeString => "Failed to create V8 string"@,
        EvalStep::Compile => "Compile error"@,
        EvalStep::CompileCached => "Failed to compile with code cache"@,
        EvalStep::Run => "Runtime error"@,
    }
}

/// What is said of a script that fails in a context: what was thrown, where that is text.
pub fn context_error_text(step: EvalStep, thrown: Option<String>) -> (r: String)
    ensures
        r@ == (if step == EvalStep::MakeString {
            step_text(step)
        } else {
            text_else(thrown, step_text(step))
        }),
{
    match step {
        EvalStep::MakeString => "Failed to create V8 string".to_string(),
        EvalStep::Compile => text_or_else(thrown, "Compile error"),
        EvalStep::CompileCached => text_or_else(thrown, "Failed to compile with code cache"),
        EvalStep::Run => text_or_else(thrown, "Runtime error"),
    }
}

/// What is said of an exception in a task of the engine.
pub fn microtask_error_text(thrown: Option<String>) -> (r: String)
    ensures
        r@ == "Exception during microtask processing: "@ + text_else(thrown, "Unknown exception"@),
{
    let text = text_or_else(thrown, "Unknown exception");
    concat2("Exception during microtask processing: ", text.as_str())
}

/// What is said of code that does not compile says where, as line and column, what was thrown, and
/// the line of the source; without a place what was thrown alone.
pub proof fn compile_errors_tell_where(
    thrown: String,
    line: usize,
    column: usize,
    source_line: String,
)
    ensures
        compile_message(
            Some(Some(thrown)),
            Some(CompileMessage { line: Some(line), column, source_line: Some(source_line) }),
        ) == "SyntaxError at line "@ + decimal(line as nat) + ", column "@ + decimal(column as nat)
            + ": "@ + thrown@ + "\n  > "@ + source_line@,
        compile_message(Some(Some(thrown)), None) == "SyntaxError: "@ + thrown@,
        compile_message(Some(None), None) == "SyntaxError: "@ + "Unknown error"@,
{
}

/// What is said of code that throws is what was thrown, and the stack trace on the lines behind it
/// where there is one that is not empty.
pub proof fn run_errors_show_the_trace(thrown: String, trace: String)
    ensures
        trace@.len() > 0 ==> run_message(Some(Some(thrown)), Some(Some(trace))) == thrown@ + "\n"@
            + trace@,
        trace@.len() == 0 ==> run_message(Some(Some(thrown)), Some(Some(trace))) == thrown@,
        run_message(Some(Some(thrown)), None) == thrown@,
        run_message(Some(Some(thrown)), Some(None)) == thrown@,
{
    reveal_strlit("");
}

/// The reason for which a worker stops that could not evaluate its code holds why.
pub proof fn evaluation_failure_holds_why(error: Seq<char>)
    ensures
        evaluation_failed(error) is Exception,
        evaluation_failed(error)->Exception_0 == "Script evaluation failed: "@ + error,
{
}

/// Without a line the line is zero, without a source line it is empty, and where nothing was thrown
/// all that is said is that the code does not compile or did not run.
pub proof fn missing_details_are_replaced(
    column: usize,
    thrown: String,
    m: Option<CompileMessage>,
    stack: Option<Option<String>>,
)
    ensures
        compile_message(
            Some(Some(thrown)),
            Some(CompileMessage { line: None, column, source_line: None }),
        ) == "SyntaxError at line "@ + decimal(0) + ", column "@ + decimal(column as nat) + ": "@
            + thrown@ + "\n  > "@ + ""@,
        compile_message(None, m) == "Failed to compile script"@,
        run_message(None, stack) == "Failed to execute script"@,
        run_message(Some(None), None) == "Unknown error"@,
{
    reveal_strlit("");
}

/// What is said of a script that fails in a context, where nothing was thrown as text, says at which
/// step it failed.
pub proof fn steps_are_told_apart(step: EvalStep)
    ensures
        step == EvalStep::MakeString ==> step_text(step) == "Failed to create V8 string"@,
        step == EvalStep::Compile ==> step_text(step) == "Compile error"@,
        step == EvalStep::CompileCached ==> step_text(step) == "Failed to compile with code cache"@,
        step == EvalStep::Run ==> step_text(step) == "Runtime error"@,
{
}

} // verus!
