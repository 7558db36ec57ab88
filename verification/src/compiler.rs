//! Options for the compiler, and what the compiler hands back.
//!
//! The compiler itself belongs to the host. This module holds the options it
//! is given and turns what it reports into typed results.

use vstd::prelude::*;
use vstd::string::StringExecFns;

use crate::ast::{ParseOptions, Span};

verus! {

#[derive(Copy, Clone, PartialEq, Eq, Debug, Structural)]
pub enum OptimizationLevel {
    /// No optimization is performed.
    Off,
    /// Only optimizations that do not impact debuggability are performed.
    Basic,
    /// All optimizations are performed, including exotic ones such as
    /// inlining.
    Full,
}

#[derive(Copy, Clone, PartialEq, Eq, Debug, Structural)]
pub enum DebugLevel {
    /// No debug symbols are included. Debugging on the source-code level is
    /// not possible.
    Off,
    /// Line info and function names are included for useful tracebacks.
    Traceback,
    /// Local and upvalue names are included. Useful for debugging.
    Full,
}

#[derive(Copy, Clone, PartialEq, Eq, Debug, Structural)]
pub enum CoverageLevel {
    /// No coverage is tracked.
    Off,
    /// Tracks coverage of statements.
    Statement,
    /// Tracks coverage of each expression.
    Expression,
}

/// The level that a number stands for: 0 and 1 for the first two levels,
/// anything else for the third.
pub open spec fn optimization_of(level: i32) -> OptimizationLevel {
    if level == 0 {
        OptimizationLevel::Off
    } else if level == 1 {
        OptimizationLevel::Basic
    } else {
        OptimizationLevel::Full
    }
}

/// The level that a number stands for: 0 and 1 for the first two levels,
/// anything else for the third.
pub open spec fn debug_of(level: i32) -> DebugLevel {
    if level == 0 {
        DebugLevel::Off
    } else if level == 1 {
        DebugLevel::Traceback
    } else {
        DebugLevel::Full
    }
}

/// The level that a number stands for: 0 and 1 for the first two levels,
/// anything else for the third.
pub open spec fn coverage_of(level: i32) -> CoverageLevel {
    if level == 0 {
        CoverageLevel::Off
    } else if level == 1 {
        CoverageLevel::Statement
    } else {
        CoverageLevel::Expression
    }
}

/// What the compiler is asked to do, as the three numbers that the host
/// takes.
#[derive(Copy, Clone, Debug)]
pub struct CompileOptions {
    optimization_level: i32,
    debug_level: i32,
    coverage_level: i32,
}

impl Default for CompileOptions {
    /// Basic optimization, tracebacks, no coverage.
    fn default() -> (r: Self)
        ensures
            r.spec_optimization_level() == 1,
            r.spec_debug_level() == 1,
            r.spec_coverage_level() == 0,
    {
        CompileOptions { optimization_level: 1, debug_level: 1, coverage_level: 0 }
    }
}

impl CompileOptions {
    /// The number that the host is given for the optimization level.
    pub closed spec fn spec_optimization_level(&self) -> i32 {
        self.optimization_level
    }

    /// The number that the host is given for the debug level.
    pub closed spec fn spec_debug_level(&self) -> i32 {
        self.debug_level
    }

    /// The number that the host is given for the coverage level.
    pub closed spec fn spec_coverage_level(&self) -> i32 {
        self.coverage_level
    }

    pub open spec fn spec_opt_level(&self) -> OptimizationLevel {
        optimization_of(self.spec_optimization_level())
    }

    pub open spec fn spec_debug(&self) -> DebugLevel {
        debug_of(self.spec_debug_level())
    }

    pub open spec fn spec_coverage(&self) -> CoverageLevel {
        coverage_of(self.spec_coverage_level())
    }

    pub fn set_opt_level(&mut self, level: OptimizationLevel) -> (r: &mut Self)
        ensures
            r.spec_opt_level() == level,
            r.spec_optimization_level() == match level {
                OptimizationLevel::Off => 0i32,
                OptimizationLevel::Basic => 1i32,
                OptimizationLevel::Full => 2i32,
            },
            r.spec_debug_level() == old(self).spec_debug_level(),
            r.spec_coverage_level() == old(self).spec_coverage_level(),
            *final(self) == *final(r),
    {
        self.optimization_level = match level {
            OptimizationLevel::Off => 0,
            OptimizationLevel::Basic => 1,
            OptimizationLevel::Full => 2,
        };
        self
    }

    pub fn set_debug_level(&mut self, level: DebugLevel) -> (r: &mut Self)
        ensures
            r.spec_debug() == level,
            r.spec_debug_level() == match level {
                DebugLevel::Off => 0i32,
                DebugLevel::Traceback => 1i32,
                DebugLevel::Full => 2i32,
            },
            r.spec_optimization_level() == old(self).spec_optimization_level(),
            r.spec_coverage_level() == old(self).spec_coverage_level(),
            *final(self) == *final(r),
    {
        self.debug_level = match level {
            DebugLevel::Off => 0,
            DebugLevel::Traceback => 1,
            DebugLevel::Full => 2,
        };
        self
    }

    pub fn set_coverage_level(&mut self, level: CoverageLevel) -> (r: &mut Self)
        ensures
            r.spec_coverage() == level,
            r.spec_coverage_level() == match level {
                CoverageLevel::Off => 0i32,
                CoverageLevel::Statement => 1i32,
                CoverageLevel::Expression => 2i32,
            },
            r.spec_optimization_level() == old(self).spec_optimization_level(),
            r.spec_debug_level() == old(self).spec_debug_level(),
            *final(self) == *final(r),
    {
        self.coverage_level = match level {
            CoverageLevel::Off => 0,
            CoverageLevel::Statement => 1,
            CoverageLevel::Expression => 2,
        };
        self
    }

    pub fn new(opt_level: OptimizationLevel, debug_level: DebugLevel, coverage_level: CoverageLevel) -> (r:
        Self)
        ensures
            r.spec_opt_level() == opt_level,
            r.spec_debug() == debug_level,
            r.spec_coverage() == coverage_level,
    {
        let mut new = Self::default();
        let _ = new.set_opt_level(opt_level);
        let _ = new.set_debug_level(debug_level);
        let _ = new.set_coverage_level(coverage_level);
        new
    }

    #[verifier::when_used_as_spec(spec_opt_level)]
    pub fn opt_level(&self) -> (r: OptimizationLevel)
        ensures
            r == self.spec_opt_level(),
    {
        match self.optimization_level {
            0 => OptimizationLevel::Off,
            1 => OptimizationLevel::Basic,
            _ => OptimizationLevel::Full,
        }
    }

    #[verifier::when_used_as_spec(spec_debug)]
    pub fn debug_level(&self) -> (r: DebugLevel)
        ensures
            r == self.spec_debug(),
    {
        match self.debug_level {
            0 => DebugLevel::Off,
            1 => DebugLevel::Traceback,
            _ => DebugLevel::Full,
        }
    }

    #[verifier::when_used_as_spec(spec_coverage)]
    pub fn coverage_level(&self) -> (r: CoverageLevel)
        ensures
            r == self.spec_coverage(),
    {
        match self.coverage_level {
            0 => CoverageLevel::Off,
            1 => CoverageLevel::Statement,
            _ => CoverageLevel::Expression,
        }
    }
}

/// A diagnostic: what is wrong, and where.
#[derive(Clone, Debug)]
pub struct Error {
    pub message: String,
    pub span: Span,
}

impl Error {
    /// The diagnostic as text: the span, a colon and a space, the message.
    pub open spec fn text(&self) -> Seq<char> {
        self.span.text() + seq![':', ' '] + self.message@
    }

    /// The diagnostic as text, such as `(1,0)..(1,5): expected identifier`.
    pub fn to_string(&self) -> (s: String)
        ensures
            s@ == self.text(),
    {
        proof {
            reveal_strlit(": ");
        }
        let mut s = self.span.to_string();
        s.append(": ");
        s.append(self.message.as_str());
        proof {
            assert(": "@ =~= seq![':', ' ']);
        }
        s
    }
}

/// Why source text could not be compiled.
#[derive(Clone, Debug)]
pub enum CompileError {
    /// The source could not be parsed; one diagnostic for each syntax error.
    Parse(Vec<Error>),
    /// The source was parsed but could not be compiled.
    Compile(Error),
}

impl CompileError {
    /// The error as text: the words `parse error`, or the diagnostic of the
    /// compiler.
    pub open spec fn text(&self) -> Seq<char> {
        match *self {
            CompileError::Parse(_) => "parse error"@,
            CompileError::Compile(error) => error.text(),
        }
    }

    pub fn to_string(&self) -> (s: String)
        ensures
            s@ == self.text(),
    {
        match self {
            CompileError::Parse(_) => String::from_str("parse error"),
            CompileError::Compile(error) => error.to_string(),
        }
    }
}

/// Bytecode, as the compiler made it. The bytes mean something to the VM
/// alone.
#[derive(Clone, Debug)]
pub struct CompiledFunction(Vec<u8>);

impl View for CompiledFunction {
    type V = Seq<u8>;

    closed spec fn view(&self) -> Seq<u8> {
        self.0@
    }
}

impl AsRef<[u8]> for CompiledFunction {
    /// The bytecode.
    fn as_ref(&self) -> (bytes: &[u8])
        ensures
            bytes@ == self@,
    {
        self.0.as_slice()
    }
}

/// A diagnostic as the host reports it.
#[derive(Debug)]
pub struct RawError {
    pub message: String,
    pub start_line: u32,
    pub start_column: u32,
    pub end_line: u32,
    pub end_column: u32,
}

/// What the host's compiler reports.
#[derive(Debug)]
pub enum CompileResult {
    /// The bytecode of the compiled source.
    Success(Vec<u8>),
    /// The syntax errors found.
    ParseFailure(Vec<RawError>),
    /// The error on which compilation stopped.
    CompileFailure(RawError),
}

/// The diagnostic that the host's report of one stands for.
pub open spec fn error_of(raw: RawError) -> Error {
    Error {
        message: raw.message,
        span: Span(
            crate::ast::Position { line: raw.start_line, column: raw.start_column },
            crate::ast::Position { line: raw.end_line, column: raw.end_column },
        ),
    }
}

/// Whether `r` is the typed result that a report of the compiler stands
/// for: the bytecode as it is, or the diagnostics, each with its message
/// and span, in the order in which they were reported.
pub open spec fn decodes(result: CompileResult, r: Result<CompiledFunction, CompileError>) -> bool {
    match result {
        CompileResult::Success(bytecode) => r matches Ok(function) && function@ == bytecode@,
        CompileResult::ParseFailure(errors) => r matches Err(CompileError::Parse(list)) && list@
            == errors@.map_values(|raw: RawError| error_of(raw)),
        CompileResult::CompileFailure(error) => r matches Err(CompileError::Compile(diagnostic))
            && diagnostic == error_of(error),
    }
}

/// One report of the compiler stands for one result: two results that it
/// stands for hold the same bytecode, or the same diagnostics in the same
/// order. So compiling twice gives the same as often as the compiler reports
/// the same.
pub proof fn lemma_decodes_once(
    result: CompileResult,
    first: Result<CompiledFunction, CompileError>,
    second: Result<CompiledFunction, CompileError>,
)
    requires
        decodes(result, first),
        decodes(result, second),
    ensures
        first is Ok <==> second is Ok,
        first matches Ok(a) ==> second matches Ok(b) && a@ == b@,
        first matches Err(CompileError::Parse(a)) ==> second matches Err(CompileError::Parse(b))
            && a@ == b@,
        first matches Err(CompileError::Compile(a)) ==> second matches Err(
            CompileError::Compile(b),
        ) && a == b,
{
}

/// The diagnostic that the host's report of one stands for.
pub fn error_from_raw(raw: RawError) -> (r: Error)
    ensures
        r == error_of(raw),
{
    Error {
        message: raw.message,
        span: Span::new(raw.start_line, raw.start_column, raw.end_line, raw.end_column),
    }
}

/// Makes a typed result of what the compiler reports.
pub fn decode(result: CompileResult) -> (r: Result<CompiledFunction, CompileError>)
    ensures
        decodes(result, r),
{
    match result {
        CompileResult::Success(bytecode) => Ok(CompiledFunction(bytecode)),
        CompileResult::ParseFailure(errors) => {
            let ghost reported = errors@;
            let mut raws = errors;
            let mut list: Vec<Error> = Vec::new();
            let mut i: usize = 0;
            while i < raws.len()
                invariant
                    i <= raws@.len(),
                    raws@.len() == reported.len(),
                    list@.len() == i,
                    forall|k: int| i <= k < raws@.len() ==> raws@[k] == reported[k],
                    forall|k: int| 0 <= k < i ==> list@[k] == error_of(reported[k]),
                decreases raws@.len() - i,
            {
                let mut raw = RawError {
                    message: String::new(),
                    start_line: 0,
                    start_column: 0,
                    end_line: 0,
                    end_column: 0,
                };
                core::mem::swap(&mut raws[i], &mut raw);
                list.push(error_from_raw(raw));
                i = i + 1;
            }
            proof {
                assert(list@ =~= reported.map_values(|raw: RawError| error_of(raw)));
            }
            Err(CompileError::Parse(list))
        },
        CompileResult::CompileFailure(error) => Err(CompileError::Compile(error_from_raw(error))),
    }
}

/// Compiles source text: hands the source and the options to `compiler`,
/// which is the host's compiler, and makes a typed result of its report.
pub fn compile<F: FnOnce(&str, &CompileOptions, &ParseOptions) -> CompileResult>(
    source: &str,
    compile_opts: &CompileOptions,
    parse_opts: &ParseOptions,
    compiler: F,
) -> (r: Result<CompiledFunction, CompileError>)
    requires
        call_requires(compiler, (source, compile_opts, parse_opts)),
    ensures
        exists|result: CompileResult| #[trigger]
            call_ensures(compiler, (source, compile_opts, parse_opts), result) && decodes(
                result,
                r,
            ),
{
    decode(compiler(source, compile_opts, parse_opts))
}

/// Compiles source text with a compiler that never fails: where the source
/// is at fault, the bytecode it makes raises the error when the VM runs it.
/// `compiler` is the host's compiler; its bytecode is taken as it is.
pub fn compile_sneakily<F: FnOnce(&str, &CompileOptions, &ParseOptions) -> Vec<u8>>(
    source: &str,
    compile_opts: &CompileOptions,
    parse_opts: &ParseOptions,
    compiler: F,
) -> (r: CompiledFunction)
    requires
        call_requires(compiler, (source, compile_opts, parse_opts)),
    ensures
        exists|bytecode: Vec<u8>| #[trigger]
            call_ensures(compiler, (source, compile_opts, parse_opts), bytecode) && r@
                == bytecode@,
{
    CompiledFunction(compiler(source, compile_opts, parse_opts))
}

} // verus!
