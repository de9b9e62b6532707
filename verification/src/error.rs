//! Diagnostics for the Ovie compiler: severities, error codes, source
//! positions and ranges, suggestions, the error type and the error reporter.

use vstd::prelude::*;
use crate::text::{append, decimal, owned, push_decimal};

verus! {

/// Error severity levels.
#[derive(Debug, Clone, Copy, PartialEq, Eq, Hash, Structural)]
pub enum ErrorSeverity {
    /// Fatal errors that prevent compilation and require immediate attention
    Fatal,
    /// Errors that prevent compilation but allow partial analysis
    Error,
    /// Warnings that should be addressed but don't prevent compilation
    Warning,
    /// Informational messages about code quality or style
    Info,
    /// Hints for improvement or optimization
    Hint,
}

/// Lower-case name of a severity.
pub open spec fn severity_text(s: ErrorSeverity) -> Seq<char> {
    match s {
        ErrorSeverity::Fatal => "fatal"@,
        ErrorSeverity::Error => "error"@,
        ErrorSeverity::Warning => "warning"@,
        ErrorSeverity::Info => "info"@,
        ErrorSeverity::Hint => "hint"@,
    }
}

/// Upper-case name of a severity.
pub open spec fn severity_display_text(s: ErrorSeverity) -> Seq<char> {
    match s {
        ErrorSeverity::Fatal => "FATAL"@,
        ErrorSeverity::Error => "ERROR"@,
        ErrorSeverity::Warning => "WARNING"@,
        ErrorSeverity::Info => "INFO"@,
        ErrorSeverity::Hint => "HINT"@,
    }
}

/// Numeric priority of a severity: Fatal 5 down to Hint 1.
pub open spec fn severity_priority(s: ErrorSeverity) -> u8 {
    match s {
        ErrorSeverity::Fatal => 5,
        ErrorSeverity::Error => 4,
        ErrorSeverity::Warning => 3,
        ErrorSeverity::Info => 2,
        ErrorSeverity::Hint => 1,
    }
}

/// ANSI color code of a severity.
pub open spec fn severity_color(s: ErrorSeverity) -> Seq<char> {
    match s {
        ErrorSeverity::Fatal => "\x1b[91m"@,
        ErrorSeverity::Error => "\x1b[31m"@,
        ErrorSeverity::Warning => "\x1b[33m"@,
        ErrorSeverity::Info => "\x1b[36m"@,
        ErrorSeverity::Hint => "\x1b[32m"@,
    }
}

/// Whether a severity is Fatal or Error.
pub open spec fn severity_is_error_level(s: ErrorSeverity) -> bool {
    s == ErrorSeverity::Fatal || s == ErrorSeverity::Error
}

impl ErrorSeverity {
    /// Get the severity as a string.
    pub fn as_str(&self) -> (r: &'static str)
        ensures
            r@ == severity_text(*self),
    {
        match self {
            ErrorSeverity::Fatal => "fatal",
            ErrorSeverity::Error => "error",
            ErrorSeverity::Warning => "warning",
            ErrorSeverity::Info => "info",
            ErrorSeverity::Hint => "hint",
        }
    }

    /// Get the severity as an uppercase string for display.
    pub fn as_display_str(&self) -> (r: &'static str)
        ensures
            r@ == severity_display_text(*self),
    {
        match self {
            ErrorSeverity::Fatal => "FATAL",
            ErrorSeverity::Error => "ERROR",
            ErrorSeverity::Warning => "WARNING",
            ErrorSeverity::Info => "INFO",
            ErrorSeverity::Hint => "HINT",
        }
    }

    /// Get the numeric priority of this severity (higher = more severe).
    pub fn priority(&self) -> (r: u8)
        ensures
            r == severity_priority(*self),
    {
        match self {
            ErrorSeverity::Fatal => 5,
            ErrorSeverity::Error => 4,
            ErrorSeverity::Warning => 3,
            ErrorSeverity::Info => 2,
            ErrorSeverity::Hint => 1,
        }
    }

    /// Check if this severity should stop compilation.
    pub fn stops_compilation(&self) -> (r: bool)
        ensures
            r == severity_is_error_level(*self),
    {
        match self {
            ErrorSeverity::Fatal | ErrorSeverity::Error => true,
            _ => false,
        }
    }

    /// Check if this severity should be treated as an error when
    /// warnings-as-errors is enabled.
    pub fn is_error_level(&self) -> (r: bool)
        ensures
            r == severity_is_error_level(*self),
    {
        match self {
            ErrorSeverity::Fatal | ErrorSeverity::Error => true,
            _ => false,
        }
    }

    /// Get the appropriate exit code for this severity: 2 for Fatal, 1 for
    /// Error, 0 otherwise.
    pub fn exit_code(&self) -> (r: i32)
        ensures
            r == (match *self {
                ErrorSeverity::Fatal => 2i32,
                ErrorSeverity::Error => 1i32,
                _ => 0i32,
            }),
    {
        match self {
            ErrorSeverity::Fatal => 2,
            ErrorSeverity::Error => 1,
            ErrorSeverity::Warning => 0,
            ErrorSeverity::Info => 0,
            ErrorSeverity::Hint => 0,
        }
    }

    /// Get ANSI color code for terminal display.
    pub fn color_code(&self) -> (r: &'static str)
        ensures
            r@ == severity_color(*self),
    {
        match self {
            ErrorSeverity::Fatal => "\x1b[91m",
            ErrorSeverity::Error => "\x1b[31m",
            ErrorSeverity::Warning => "\x1b[33m",
            ErrorSeverity::Info => "\x1b[36m",
            ErrorSeverity::Hint => "\x1b[32m",
        }
    }

    /// Get the reset ANSI code.
    pub fn reset_code() -> (r: &'static str)
        ensures
            r@ == "\x1b[0m"@,
    {
        "\x1b[0m"
    }
}

/// Error categories for better organization.
#[derive(Debug, Clone, Copy, PartialEq, Eq, Hash, Structural)]
pub enum ErrorCategory {
    /// Syntax and lexical errors
    Syntax,
    /// Type system errors
    Type,
    /// Semantic analysis errors
    Semantic,
    /// Runtime errors
    Runtime,
    /// IO and file system errors
    Io,
    /// Code generation errors
    Codegen,
    /// Package management errors
    Package,
    /// Security and safety errors
    Security,
    /// Performance warnings
    Performance,
    /// Style and formatting issues
    Style,
}

/// Error code taxonomy for structured error reporting.
#[derive(Debug, Clone, Copy, PartialEq, Eq, Hash, Structural)]
pub enum ErrorCode {
    /// Invalid character in source code
    ELex001,
    /// Unterminated string literal
    ELex002,
    /// Invalid number format
    ELex003,
    /// Invalid identifier
    ELex004,
    /// Unexpected end of file
    ELex005,
    /// Expected token not found
    EParse001,
    /// Unexpected token
    EParse002,
    /// Missing semicolon
    EParse003,
    /// Unmatched parentheses
    EParse004,
    /// Unmatched braces
    EParse005,
    /// Invalid expression
    EParse006,
    /// Invalid statement
    EParse007,
    /// Undefined variable
    ESem001,
    /// Undefined function
    ESem002,
    /// Undefined type
    ESem003,
    /// Duplicate definition
    ESem004,
    /// Invalid scope access
    ESem005,
    /// Circular dependency
    ESem006,
    /// Type mismatch
    EType001,
    /// Cannot infer type
    EType002,
    /// Invalid type conversion
    EType003,
    /// Undefined method
    EType004,
    /// Invalid trait implementation
    EType005,
    /// Lifetime error
    EType006,
    /// Unreachable code
    EFlow001,
    /// Missing return statement
    EFlow002,
    /// Invalid break/continue
    EFlow003,
    /// Infinite loop detected
    EFlow004,
    /// Use after free
    EMem001,
    /// Double free
    EMem002,
    /// Buffer overflow
    EMem003,
    /// Null pointer dereference
    EMem004,
    /// Memory leak detected
    EMem005,
    /// File not found
    EIo001,
    /// Permission denied
    EIo002,
    /// Read error
    EIo003,
    /// Write error
    EIo004,
    /// Network error
    EIo005,
    /// Invariant violation
    EIce001,
    /// Unexpected compiler state
    EIce002,
    /// Code generation failure
    EIce003,
    /// Optimization failure
    EIce004,
    /// Invalid configuration file
    EConfig001,
    /// Missing required setting
    EConfig002,
    /// Invalid setting value
    EConfig003,
    /// Environment setup error
    EConfig004,
    /// Division by zero
    ERuntime001,
    /// Array index out of bounds
    ERuntime002,
    /// Stack overflow
    ERuntime003,
    /// Assertion failure
    ERuntime004,
    /// Panic
    ERuntime005,
}

/// The textual form of an error code, such as `E_LEX_001`.
pub open spec fn error_code_text(code: ErrorCode) -> Seq<char> {
    match code {
        ErrorCode::ELex001 => "E_LEX_001"@,
        ErrorCode::ELex002 => "E_LEX_002"@,
        ErrorCode::ELex003 => "E_LEX_003"@,
        ErrorCode::ELex004 => "E_LEX_004"@,
        ErrorCode::ELex005 => "E_LEX_005"@,
        ErrorCode::EParse001 => "E_PARSE_001"@,
        ErrorCode::EParse002 => "E_PARSE_002"@,
        ErrorCode::EParse003 => "E_PARSE_003"@,
        ErrorCode::EParse004 => "E_PARSE_004"@,
        ErrorCode::EParse005 => "E_PARSE_005"@,
        ErrorCode::EParse006 => "E_PARSE_006"@,
        ErrorCode::EParse007 => "E_PARSE_007"@,
        ErrorCode::ESem001 => "E_SEM_001"@,
        ErrorCode::ESem002 => "E_SEM_002"@,
        ErrorCode::ESem003 => "E_SEM_003"@,
        ErrorCode::ESem004 => "E_SEM_004"@,
        ErrorCode::ESem005 => "E_SEM_005"@,
        ErrorCode::ESem006 => "E_SEM_006"@,
        ErrorCode::EType001 => "E_TYPE_001"@,
        ErrorCode::EType002 => "E_TYPE_002"@,
        ErrorCode::EType003 => "E_TYPE_003"@,
        ErrorCode::EType004 => "E_TYPE_004"@,
        ErrorCode::EType005 => "E_TYPE_005"@,
        ErrorCode::EType006 => "E_TYPE_006"@,
        ErrorCode::EFlow001 => "E_FLOW_001"@,
        ErrorCode::EFlow002 => "E_FLOW_002"@,
        ErrorCode::EFlow003 => "E_FLOW_003"@,
        ErrorCode::EFlow004 => "E_FLOW_004"@,
        ErrorCode::EMem001 => "E_MEM_001"@,
        ErrorCode::EMem002 => "E_MEM_002"@,
        ErrorCode::EMem003 => "E_MEM_003"@,
        ErrorCode::EMem004 => "E_MEM_004"@,
        ErrorCode::EMem005 => "E_MEM_005"@,
        ErrorCode::EIo001 => "E_IO_001"@,
        ErrorCode::EIo002 => "E_IO_002"@,
        ErrorCode::EIo003 => "E_IO_003"@,
        ErrorCode::EIo004 => "E_IO_004"@,
        ErrorCode::EIo005 => "E_IO_005"@,
        ErrorCode::EIce001 => "E_ICE_001"@,
        ErrorCode::EIce002 => "E_ICE_002"@,
        ErrorCode::EIce003 => "E_ICE_003"@,
        ErrorCode::EIce004 => "E_ICE_004"@,
        ErrorCode::EConfig001 => "E_CONFIG_001"@,
        ErrorCode::EConfig002 => "E_CONFIG_002"@,
        ErrorCode::EConfig003 => "E_CONFIG_003"@,
        ErrorCode::EConfig004 => "E_CONFIG_004"@,
        ErrorCode::ERuntime001 => "E_RUNTIME_001"@,
        ErrorCode::ERuntime002 => "E_RUNTIME_002"@,
        ErrorCode::ERuntime003 => "E_RUNTIME_003"@,
        ErrorCode::ERuntime004 => "E_RUNTIME_004"@,
        ErrorCode::ERuntime005 => "E_RUNTIME_005"@,
    }
}

/// A number that tells error codes apart: ten times the group's place
/// (lexical 1 up to runtime 10) plus the code's number within its group.
pub open spec fn error_code_number(code: ErrorCode) -> int {
    match code {
        ErrorCode::ELex001 => 11,
        ErrorCode::ELex002 => 12,
        ErrorCode::ELex003 => 13,
        ErrorCode::ELex004 => 14,
        ErrorCode::ELex005 => 15,
        ErrorCode::EParse001 => 21,
        ErrorCode::EParse002 => 22,
        ErrorCode::EParse003 => 23,
        ErrorCode::EParse004 => 24,
        ErrorCode::EParse005 => 25,
        ErrorCode::EParse006 => 26,
        ErrorCode::EParse007 => 27,
        ErrorCode::ESem001 => 31,
        ErrorCode::ESem002 => 32,
        ErrorCode::ESem003 => 33,
        ErrorCode::ESem004 => 34,
        ErrorCode::ESem005 => 35,
        ErrorCode::ESem006 => 36,
        ErrorCode::EType001 => 41,
        ErrorCode::EType002 => 42,
        ErrorCode::EType003 => 43,
        ErrorCode::EType004 => 44,
        ErrorCode::EType005 => 45,
        ErrorCode::EType006 => 46,
        ErrorCode::EFlow001 => 51,
        ErrorCode::EFlow002 => 52,
        ErrorCode::EFlow003 => 53,
        ErrorCode::EFlow004 => 54,
        ErrorCode::EMem001 => 61,
        ErrorCode::EMem002 => 62,
        ErrorCode::EMem003 => 63,
        ErrorCode::EMem004 => 64,
        ErrorCode::EMem005 => 65,
        ErrorCode::EIo001 => 71,
        ErrorCode::EIo002 => 72,
        ErrorCode::EIo003 => 73,
        ErrorCode::EIo004 => 74,
        ErrorCode::EIo005 => 75,
        ErrorCode::EIce001 => 81,
        ErrorCode::EIce002 => 82,
        ErrorCode::EIce003 => 83,
        ErrorCode::EIce004 => 84,
        ErrorCode::EConfig001 => 91,
        ErrorCode::EConfig002 => 92,
        ErrorCode::EConfig003 => 93,
        ErrorCode::EConfig004 => 94,
        ErrorCode::ERuntime001 => 101,
        ErrorCode::ERuntime002 => 102,
        ErrorCode::ERuntime003 => 103,
        ErrorCode::ERuntime004 => 104,
        ErrorCode::ERuntime005 => 105,
    }
}

/// The group's place read back from a code's text, by its first letters.
pub open spec fn text_group(s: Seq<char>) -> int {
    if s[2] == 'L' { 1 }
    else if s[2] == 'P' { 2 }
    else if s[2] == 'S' { 3 }
    else if s[2] == 'T' { 4 }
    else if s[2] == 'F' { 5 }
    else if s[2] == 'M' { 6 }
    else if s[2] == 'I' && s[3] == 'O' { 7 }
    else if s[2] == 'I' { 8 }
    else if s[2] == 'C' { 9 }
    else { 10 }
}

/// The number read back from a code's text: the group's place and the last
/// digit.
pub open spec fn text_number(s: Seq<char>) -> int {
    text_group(s) * 10 + (s[s.len() - 1] as int - '0' as int)
}

/// Each code's text gives back the code's number.
pub proof fn lemma_error_code_text_number(code: ErrorCode)
    ensures
        text_number(error_code_text(code)) == error_code_number(code),
{
    match code {
        ErrorCode::ELex001 => {
            reveal_strlit("E_LEX_001");
        },
        ErrorCode::ELex002 => {
            reveal_strlit("E_LEX_002");
        },
        ErrorCode::ELex003 => {
            reveal_strlit("E_LEX_003");
        },
        ErrorCode::ELex004 => {
            reveal_strlit("E_LEX_004");
        },
        ErrorCode::ELex005 => {
            reveal_strlit("E_LEX_005");
        },
        ErrorCode::EParse001 => {
            reveal_strlit("E_PARSE_001");
        },
        ErrorCode::EParse002 => {
            reveal_strlit("E_PARSE_002");
        },
        ErrorCode::EParse003 => {
            reveal_strlit("E_PARSE_003");
        },
        ErrorCode::EParse004 => {
            reveal_strlit("E_PARSE_004");
        },
        ErrorCode::EParse005 => {
            reveal_strlit("E_PARSE_005");
        },
        ErrorCode::EParse006 => {
            reveal_strlit("E_PARSE_006");
        },
        ErrorCode::EParse007 => {
            reveal_strlit("E_PARSE_007");
        },
        ErrorCode::ESem001 => {
            reveal_strlit("E_SEM_001");
        },
        ErrorCode::ESem002 => {
            reveal_strlit("E_SEM_002");
        },
        ErrorCode::ESem003 => {
            reveal_strlit("E_SEM_003");
        },
        ErrorCode::ESem004 => {
            reveal_strlit("E_SEM_004");
        },
        ErrorCode::ESem005 => {
            reveal_strlit("E_SEM_005");
        },
        ErrorCode::ESem006 => {
            reveal_strlit("E_SEM_006");
        },
        ErrorCode::EType001 => {
            reveal_strlit("E_TYPE_001");
        },
        ErrorCode::EType002 => {
            reveal_strlit("E_TYPE_002");
        },
        ErrorCode::EType003 => {
            reveal_strlit("E_TYPE_003");
        },
        ErrorCode::EType004 => {
            reveal_strlit("E_TYPE_004");
        },
        ErrorCode::EType005 => {
            reveal_strlit("E_TYPE_005");
        },
        ErrorCode::EType006 => {
            reveal_strlit("E_TYPE_006");
        },
        ErrorCode::EFlow001 => {
            reveal_strlit("E_FLOW_001");
        },
        ErrorCode::EFlow002 => {
            reveal_strlit("E_FLOW_002");
        },
        ErrorCode::EFlow003 => {
            reveal_strlit("E_FLOW_003");
        },
        ErrorCode::EFlow004 => {
            reveal_strlit("E_FLOW_004");
        },
        ErrorCode::EMem001 => {
            reveal_strlit("E_MEM_001");
        },
        ErrorCode::EMem002 => {
            reveal_strlit("E_MEM_002");
        },
        ErrorCode::EMem003 => {
            reveal_strlit("E_MEM_003");
        },
        ErrorCode::EMem004 => {
            reveal_strlit("E_MEM_004");
        },
        ErrorCode::EMem005 => {
            reveal_strlit("E_MEM_005");
        },
        ErrorCode::EIo001 => {
            reveal_strlit("E_IO_001");
        },
        ErrorCode::EIo002 => {
            reveal_strlit("E_IO_002");
        },
        ErrorCode::EIo003 => {
            reveal_strlit("E_IO_003");
        },
        ErrorCode::EIo004 => {
            reveal_strlit("E_IO_004");
        },
        ErrorCode::EIo005 => {
            reveal_strlit("E_IO_005");
        },
        ErrorCode::EIce001 => {
            reveal_strlit("E_ICE_001");
        },
        ErrorCode::EIce002 => {
            reveal_strlit("E_ICE_002");
        },
        ErrorCode::EIce003 => {
            reveal_strlit("E_ICE_003");
        },
        ErrorCode::EIce004 => {
            reveal_strlit("E_ICE_004");
        },
        ErrorCode::EConfig001 => {
            reveal_strlit("E_CONFIG_001");
        },
        ErrorCode::EConfig002 => {
            reveal_strlit("E_CONFIG_002");
        },
        ErrorCode::EConfig003 => {
            reveal_strlit("E_CONFIG_003");
        },
        ErrorCode::EConfig004 => {
            reveal_strlit("E_CONFIG_004");
        },
        ErrorCode::ERuntime001 => {
            reveal_strlit("E_RUNTIME_001");
        },
        ErrorCode::ERuntime002 => {
            reveal_strlit("E_RUNTIME_002");
        },
        ErrorCode::ERuntime003 => {
            reveal_strlit("E_RUNTIME_003");
        },
        ErrorCode::ERuntime004 => {
            reveal_strlit("E_RUNTIME_004");
        },
        ErrorCode::ERuntime005 => {
            reveal_strlit("E_RUNTIME_005");
        },
    }
}

/// Different error codes have different texts.
pub proof fn law_error_code_text_injective(c1: ErrorCode, c2: ErrorCode)
    requires
        error_code_text(c1) == error_code_text(c2),
    ensures
        c1 == c2,
{
    lemma_error_code_text_number(c1);
    lemma_error_code_text_number(c2);
}

/// The human-readable description of an error code.
pub open spec fn error_code_description(code: ErrorCode) -> Seq<char> {
    match code {
        ErrorCode::ELex001 => "Invalid character in source code"@,
        ErrorCode::ELex002 => "Unterminated string literal"@,
        ErrorCode::ELex003 => "Invalid number format"@,
        ErrorCode::ELex004 => "Invalid identifier"@,
        ErrorCode::ELex005 => "Unexpected end of file"@,
        ErrorCode::EParse001 => "Expected token not found"@,
        ErrorCode::EParse002 => "Unexpected token"@,
        ErrorCode::EParse003 => "Missing semicolon"@,
        ErrorCode::EParse004 => "Unmatched parentheses"@,
        ErrorCode::EParse005 => "Unmatched braces"@,
        ErrorCode::EParse006 => "Invalid expression"@,
        ErrorCode::EParse007 => "Invalid statement"@,
        ErrorCode::ESem001 => "Undefined variable"@,
        ErrorCode::ESem002 => "Undefined function"@,
        ErrorCode::ESem003 => "Undefined type"@,
        ErrorCode::ESem004 => "Duplicate definition"@,
        ErrorCode::ESem005 => "Invalid scope access"@,
        ErrorCode::ESem006 => "Circular dependency"@,
        ErrorCode::EType001 => "Type mismatch"@,
        ErrorCode::EType002 => "Cannot infer type"@,
        ErrorCode::EType003 => "Invalid type conversion"@,
        ErrorCode::EType004 => "Undefined method"@,
        ErrorCode::EType005 => "Invalid trait implementation"@,
        ErrorCode::EType006 => "Lifetime error"@,
        ErrorCode::EFlow001 => "Unreachable code"@,
        ErrorCode::EFlow002 => "Missing return statement"@,
        ErrorCode::EFlow003 => "Invalid break/continue"@,
        ErrorCode::EFlow004 => "Infinite loop detected"@,
        ErrorCode::EMem001 => "Use after free"@,
        ErrorCode::EMem002 => "Double free"@,
        ErrorCode::EMem003 => "Buffer overflow"@,
        ErrorCode::EMem004 => "Null pointer dereference"@,
        ErrorCode::EMem005 => "Memory leak detected"@,
        ErrorCode::EIo001 => "File not found"@,
        ErrorCode::EIo002 => "Permission denied"@,
        ErrorCode::EIo003 => "Read error"@,
        ErrorCode::EIo004 => "Write error"@,
        ErrorCode::EIo005 => "Network error"@,
        ErrorCode::EIce001 => "Invariant violation"@,
        ErrorCode::EIce002 => "Unexpected compiler state"@,
        ErrorCode::EIce003 => "Code generation failure"@,
        ErrorCode::EIce004 => "Optimization failure"@,
        ErrorCode::EConfig001 => "Invalid configuration file"@,
        ErrorCode::EConfig002 => "Missing required setting"@,
        ErrorCode::EConfig003 => "Invalid setting value"@,
        ErrorCode::EConfig004 => "Environment setup error"@,
        ErrorCode::ERuntime001 => "Division by zero"@,
        ErrorCode::ERuntime002 => "Array index out of bounds"@,
        ErrorCode::ERuntime003 => "Stack overflow"@,
        ErrorCode::ERuntime004 => "Assertion failure"@,
        ErrorCode::ERuntime005 => "Panic"@,
    }
}

/// The category an error code belongs to.
pub open spec fn error_code_category(code: ErrorCode) -> ErrorCategory {
    match code {
        ErrorCode::ELex001 => ErrorCategory::Syntax,
        ErrorCode::ELex002 => ErrorCategory::Syntax,
        ErrorCode::ELex003 => ErrorCategory::Syntax,
        ErrorCode::ELex004 => ErrorCategory::Syntax,
        ErrorCode::ELex005 => ErrorCategory::Syntax,
        ErrorCode::EParse001 => ErrorCategory::Syntax,
        ErrorCode::EParse002 => ErrorCategory::Syntax,
        ErrorCode::EParse003 => ErrorCategory::Syntax,
        ErrorCode::EParse004 => ErrorCategory::Syntax,
        ErrorCode::EParse005 => ErrorCategory::Syntax,
        ErrorCode::EParse006 => ErrorCategory::Syntax,
        ErrorCode::EParse007 => ErrorCategory::Syntax,
        ErrorCode::ESem001 => ErrorCategory::Semantic,
        ErrorCode::ESem002 => ErrorCategory::Semantic,
        ErrorCode::ESem003 => ErrorCategory::Semantic,
        ErrorCode::ESem004 => ErrorCategory::Semantic,
        ErrorCode::ESem005 => ErrorCategory::Semantic,
        ErrorCode::ESem006 => ErrorCategory::Semantic,
        ErrorCode::EType001 => ErrorCategory::Type,
        ErrorCode::EType002 => ErrorCategory::Type,
        ErrorCode::EType003 => ErrorCategory::Type,
        ErrorCode::EType004 => ErrorCategory::Type,
        ErrorCode::EType005 => ErrorCategory::Type,
        ErrorCode::EType006 => ErrorCategory::Type,
        ErrorCode::EFlow001 => ErrorCategory::Semantic,
        ErrorCode::EFlow002 => ErrorCategory::Semantic,
        ErrorCode::EFlow003 => ErrorCategory::Semantic,
        ErrorCode::EFlow004 => ErrorCategory::Semantic,
        ErrorCode::EMem001 => ErrorCategory::Security,
        ErrorCode::EMem002 => ErrorCategory::Security,
        ErrorCode::EMem003 => ErrorCategory::Security,
        ErrorCode::EMem004 => ErrorCategory::Security,
        ErrorCode::EMem005 => ErrorCategory::Security,
        ErrorCode::EIo001 => ErrorCategory::Io,
        ErrorCode::EIo002 => ErrorCategory::Io,
        ErrorCode::EIo003 => ErrorCategory::Io,
        ErrorCode::EIo004 => ErrorCategory::Io,
        ErrorCode::EIo005 => ErrorCategory::Io,
        ErrorCode::EIce001 => ErrorCategory::Codegen,
        ErrorCode::EIce002 => ErrorCategory::Codegen,
        ErrorCode::EIce003 => ErrorCategory::Codegen,
        ErrorCode::EIce004 => ErrorCategory::Codegen,
        ErrorCode::EConfig001 => ErrorCategory::Package,
        ErrorCode::EConfig002 => ErrorCategory::Package,
        ErrorCode::EConfig003 => ErrorCategory::Package,
        ErrorCode::EConfig004 => ErrorCategory::Package,
        ErrorCode::ERuntime001 => ErrorCategory::Runtime,
        ErrorCode::ERuntime002 => ErrorCategory::Runtime,
        ErrorCode::ERuntime003 => ErrorCategory::Runtime,
        ErrorCode::ERuntime004 => ErrorCategory::Runtime,
        ErrorCode::ERuntime005 => ErrorCategory::Runtime,
    }
}

impl ErrorCode {
    /// Get the error code as a string.
    pub fn as_str(&self) -> (r: &'static str)
        ensures
            r@ == error_code_text(*self),
    {
        match self {
            ErrorCode::ELex001 => "E_LEX_001",
            ErrorCode::ELex002 => "E_LEX_002",
            ErrorCode::ELex003 => "E_LEX_003",
            ErrorCode::ELex004 => "E_LEX_004",
            ErrorCode::ELex005 => "E_LEX_005",
            ErrorCode::EParse001 => "E_PARSE_001",
            ErrorCode::EParse002 => "E_PARSE_002",
            ErrorCode::EParse003 => "E_PARSE_003",
            ErrorCode::EParse004 => "E_PARSE_004",
            ErrorCode::EParse005 => "E_PARSE_005",
            ErrorCode::EParse006 => "E_PARSE_006",
            ErrorCode::EParse007 => "E_PARSE_007",
            ErrorCode::ESem001 => "E_SEM_001",
            ErrorCode::ESem002 => "E_SEM_002",
            ErrorCode::ESem003 => "E_SEM_003",
            ErrorCode::ESem004 => "E_SEM_004",
            ErrorCode::ESem005 => "E_SEM_005",
            ErrorCode::ESem006 => "E_SEM_006",
            ErrorCode::EType001 => "E_TYPE_001",
            ErrorCode::EType002 => "E_TYPE_002",
            ErrorCode::EType003 => "E_TYPE_003",
            ErrorCode::EType004 => "E_TYPE_004",
            ErrorCode::EType005 => "E_TYPE_005",
            ErrorCode::EType006 => "E_TYPE_006",
            ErrorCode::EFlow001 => "E_FLOW_001",
            ErrorCode::EFlow002 => "E_FLOW_002",
            ErrorCode::EFlow003 => "E_FLOW_003",
            ErrorCode::EFlow004 => "E_FLOW_004",
            ErrorCode::EMem001 => "E_MEM_001",
            ErrorCode::EMem002 => "E_MEM_002",
            ErrorCode::EMem003 => "E_MEM_003",
            ErrorCode::EMem004 => "E_MEM_004",
            ErrorCode::EMem005 => "E_MEM_005",
            ErrorCode::EIo001 => "E_IO_001",
            ErrorCode::EIo002 => "E_IO_002",
            ErrorCode::EIo003 => "E_IO_003",
            ErrorCode::EIo004 => "E_IO_004",
            ErrorCode::EIo005 => "E_IO_005",
            ErrorCode::EIce001 => "E_ICE_001",
            ErrorCode::EIce002 => "E_ICE_002",
            ErrorCode::EIce003 => "E_ICE_003",
            ErrorCode::EIce004 => "E_ICE_004",
            ErrorCode::EConfig001 => "E_CONFIG_001",
            ErrorCode::EConfig002 => "E_CONFIG_002",
            ErrorCode::EConfig003 => "E_CONFIG_003",
            ErrorCode::EConfig004 => "E_CONFIG_004",
            ErrorCode::ERuntime001 => "E_RUNTIME_001",
            ErrorCode::ERuntime002 => "E_RUNTIME_002",
            ErrorCode::ERuntime003 => "E_RUNTIME_003",
            ErrorCode::ERuntime004 => "E_RUNTIME_004",
            ErrorCode::ERuntime005 => "E_RUNTIME_005",
        }
    }

    /// Get a human-readable description of the error.
    pub fn description(&self) -> (r: &'static str)
        ensures
            r@ == error_code_description(*self),
    {
        match self {
            ErrorCode::ELex001 => "Invalid character in source code",
            ErrorCode::ELex002 => "Unterminated string literal",
            ErrorCode::ELex003 => "Invalid number format",
            ErrorCode::ELex004 => "Invalid identifier",
            ErrorCode::ELex005 => "Unexpected end of file",
            ErrorCode::EParse001 => "Expected token not found",
            ErrorCode::EParse002 => "Unexpected token",
            ErrorCode::EParse003 => "Missing semicolon",
            ErrorCode::EParse004 => "Unmatched parentheses",
            ErrorCode::EParse005 => "Unmatched braces",
            ErrorCode::EParse006 => "Invalid expression",
            ErrorCode::EParse007 => "Invalid statement",
            ErrorCode::ESem001 => "Undefined variable",
            ErrorCode::ESem002 => "Undefined function",
            ErrorCode::ESem003 => "Undefined type",
            ErrorCode::ESem004 => "Duplicate definition",
            ErrorCode::ESem005 => "Invalid scope access",
            ErrorCode::ESem006 => "Circular dependency",
            ErrorCode::EType001 => "Type mismatch",
            ErrorCode::EType002 => "Cannot infer type",
            ErrorCode::EType003 => "Invalid type conversion",
            ErrorCode::EType004 => "Undefined method",
            ErrorCode::EType005 => "Invalid trait implementation",
            ErrorCode::EType006 => "Lifetime error",
            ErrorCode::EFlow001 => "Unreachable code",
            ErrorCode::EFlow002 => "Missing return statement",
            ErrorCode::EFlow003 => "Invalid break/continue",
            ErrorCode::EFlow004 => "Infinite loop detected",
            ErrorCode::EMem001 => "Use after free",
            ErrorCode::EMem002 => "Double free",
            ErrorCode::EMem003 => "Buffer overflow",
            ErrorCode::EMem004 => "Null pointer dereference",
            ErrorCode::EMem005 => "Memory leak detected",
            ErrorCode::EIo001 => "File not found",
            ErrorCode::EIo002 => "Permission denied",
            ErrorCode::EIo003 => "Read error",
            ErrorCode::EIo004 => "Write error",
            ErrorCode::EIo005 => "Network error",
            ErrorCode::EIce001 => "Invariant violation",
            ErrorCode::EIce002 => "Unexpected compiler state",
            ErrorCode::EIce003 => "Code generation failure",
            ErrorCode::EIce004 => "Optimization failure",
            ErrorCode::EConfig001 => "Invalid configuration file",
            ErrorCode::EConfig002 => "Missing required setting",
            ErrorCode::EConfig003 => "Invalid setting value",
            ErrorCode::EConfig004 => "Environment setup error",
            ErrorCode::ERuntime001 => "Division by zero",
            ErrorCode::ERuntime002 => "Array index out of bounds",
            ErrorCode::ERuntime003 => "Stack overflow",
            ErrorCode::ERuntime004 => "Assertion failure",
            ErrorCode::ERuntime005 => "Panic",
        }
    }

    /// Get the category this error belongs to.
    pub fn category(&self) -> (r: ErrorCategory)
        ensures
            r == error_code_category(*self),
    {
        match self {
            ErrorCode::ELex001 => ErrorCategory::Syntax,
            ErrorCode::ELex002 => ErrorCategory::Syntax,
            ErrorCode::ELex003 => ErrorCategory::Syntax,
            ErrorCode::ELex004 => ErrorCategory::Syntax,
            ErrorCode::ELex005 => ErrorCategory::Syntax,
            ErrorCode::EParse001 => ErrorCategory::Syntax,
            ErrorCode::EParse002 => ErrorCategory::Syntax,
            ErrorCode::EParse003 => ErrorCategory::Syntax,
            ErrorCode::EParse004 => ErrorCategory::Syntax,
            ErrorCode::EParse005 => ErrorCategory::Syntax,
            ErrorCode::EParse006 => ErrorCategory::Syntax,
            ErrorCode::EParse007 => ErrorCategory::Syntax,
            ErrorCode::ESem001 => ErrorCategory::Semantic,
            ErrorCode::ESem002 => ErrorCategory::Semantic,
            ErrorCode::ESem003 => ErrorCategory::Semantic,
            ErrorCode::ESem004 => ErrorCategory::Semantic,
            ErrorCode::ESem005 => ErrorCategory::Semantic,
            ErrorCode::ESem006 => ErrorCategory::Semantic,
            ErrorCode::EType001 => ErrorCategory::Type,
            ErrorCode::EType002 => ErrorCategory::Type,
            ErrorCode::EType003 => ErrorCategory::Type,
            ErrorCode::EType004 => ErrorCategory::Type,
            ErrorCode::EType005 => ErrorCategory::Type,
            ErrorCode::EType006 => ErrorCategory::Type,
            ErrorCode::EFlow001 => ErrorCategory::Semantic,
            ErrorCode::EFlow002 => ErrorCategory::Semantic,
            ErrorCode::EFlow003 => ErrorCategory::Semantic,
            ErrorCode::EFlow004 => ErrorCategory::Semantic,
            ErrorCode::EMem001 => ErrorCategory::Security,
            ErrorCode::EMem002 => ErrorCategory::Security,
            ErrorCode::EMem003 => ErrorCategory::Security,
            ErrorCode::EMem004 => ErrorCategory::Security,
            ErrorCode::EMem005 => ErrorCategory::Security,
            ErrorCode::EIo001 => ErrorCategory::Io,
            ErrorCode::EIo002 => ErrorCategory::Io,
            ErrorCode::EIo003 => ErrorCategory::Io,
            ErrorCode::EIo004 => ErrorCategory::Io,
            ErrorCode::EIo005 => ErrorCategory::Io,
            ErrorCode::EIce001 => ErrorCategory::Codegen,
            ErrorCode::EIce002 => ErrorCategory::Codegen,
            ErrorCode::EIce003 => ErrorCategory::Codegen,
            ErrorCode::EIce004 => ErrorCategory::Codegen,
            ErrorCode::EConfig001 => ErrorCategory::Package,
            ErrorCode::EConfig002 => ErrorCategory::Package,
            ErrorCode::EConfig003 => ErrorCategory::Package,
            ErrorCode::EConfig004 => ErrorCategory::Package,
            ErrorCode::ERuntime001 => ErrorCategory::Runtime,
            ErrorCode::ERuntime002 => ErrorCategory::Runtime,
            ErrorCode::ERuntime003 => ErrorCategory::Runtime,
            ErrorCode::ERuntime004 => ErrorCategory::Runtime,
            ErrorCode::ERuntime005 => ErrorCategory::Runtime,
        }
    }

    /// Get the default severity for this error code: internal compiler
    /// errors, memory errors, stack overflow and panics are fatal, every
    /// other code is an error.
    pub fn default_severity(&self) -> (r: ErrorSeverity)
        ensures
            r == error_code_default_severity(*self),
    {
        match self {
            ErrorCode::EMem001 | ErrorCode::EMem002 | ErrorCode::EMem003 | ErrorCode::EMem004 | ErrorCode::EMem005 | ErrorCode::EIce001 | ErrorCode::EIce002 | ErrorCode::EIce003 | ErrorCode::EIce004 | ErrorCode::ERuntime003 | ErrorCode::ERuntime005 => ErrorSeverity::Fatal,
            _ => ErrorSeverity::Error,
        }
    }
}

/// The default severity of an error code.
pub open spec fn error_code_default_severity(code: ErrorCode) -> ErrorSeverity {
    match code {
        ErrorCode::EMem001 | ErrorCode::EMem002 | ErrorCode::EMem003 | ErrorCode::EMem004 | ErrorCode::EMem005 | ErrorCode::EIce001 | ErrorCode::EIce002 | ErrorCode::EIce003 | ErrorCode::EIce004 | ErrorCode::ERuntime003 | ErrorCode::ERuntime005 => ErrorSeverity::Fatal,
        _ => ErrorSeverity::Error,
    }
}

/// Categories of error suggestions.
#[derive(Debug, Clone, Copy, PartialEq, Eq, Structural)]
pub enum SuggestionCategory {
    /// Syntax correction
    SyntaxFix,
    /// Type annotation or conversion
    TypeFix,
    /// Import or dependency fix
    ImportFix,
    /// Security improvement
    SecurityFix,
    /// Performance optimization
    PerformanceFix,
    /// Style improvement
    StyleFix,
    /// General guidance
    Guidance,
}

/// Priority levels for suggestions.
#[derive(Debug, Clone, Copy, PartialEq, Eq, Structural)]
pub enum SuggestionPriority {
    /// Critical - must be fixed
    Critical,
    /// High - should be fixed soon
    High,
    /// Medium - should be addressed
    Medium,
    /// Low - nice to have
    Low,
    /// Info - informational only
    Info,
}

/// The characters of an optional string.
pub open spec fn opt_text(o: Option<String>) -> Option<Seq<char>> {
    match o {
        Some(s) => Some(s@),
        None => None,
    }
}

/// A copy of an optional string.
pub fn copy_opt_string(o: &Option<String>) -> (r: Option<String>)
    ensures
        opt_text(r) == opt_text(*o),
{
    match o {
        Some(s) => Some(s.clone()),
        None => None,
    }
}

/// A copy of a list of strings.
pub fn copy_strings(v: &Vec<String>) -> (r: Vec<String>)
    ensures
        r@.map_values(|s: String| s@) == v@.map_values(|s: String| s@),
{
    let mut r: Vec<String> = Vec::new();
    let mut i: usize = 0;
    while i < v.len()
        invariant
            i <= v@.len(),
            r@.len() == i,
            forall|j: int| 0 <= j < i ==> (#[trigger] r@[j])@ == v@[j]@,
        decreases v@.len() - i,
    {
        r.push(v[i].clone());
        i = i + 1;
    }
    assert(r@.map_values(|s: String| s@) =~= v@.map_values(|s: String| s@));
    r
}

/// A source position as plain values.
pub struct PositionView {
    pub file: Option<Seq<char>>,
    pub line: usize,
    pub column: usize,
    pub offset: usize,
}

/// Enhanced source position with file information.
#[derive(Debug, Clone)]
pub struct SourcePosition {
    /// File path (optional)
    pub file: Option<String>,
    /// Line number (1-based)
    pub line: usize,
    /// Column number (1-based)
    pub column: usize,
    /// Byte offset in the source
    pub offset: usize,
}

impl View for SourcePosition {
    type V = PositionView;

    open spec fn view(&self) -> PositionView {
        PositionView { file: opt_text(self.file), line: self.line, column: self.column, offset: self.offset }
    }
}

/// `line:column`, prefixed by `file:` when there is a file.
pub open spec fn position_text(p: PositionView) -> Seq<char> {
    match p.file {
        Some(f) => f + ":"@ + decimal(p.line as nat) + ":"@ + decimal(p.column as nat),
        None => decimal(p.line as nat) + ":"@ + decimal(p.column as nat),
    }
}

impl SourcePosition {
    /// Create a new source position.
    pub fn new(file: Option<String>, line: usize, column: usize, offset: usize) -> (r: Self)
        ensures
            r@ == (PositionView { file: opt_text(file), line, column, offset }),
    {
        SourcePosition { file, line, column, offset }
    }

    /// Create a source position without file information.
    pub fn at_line_column(line: usize, column: usize) -> (r: Self)
        ensures
            r@ == (PositionView { file: None, line, column, offset: 0 }),
    {
        SourcePosition { file: None, line, column, offset: 0 }
    }

    /// Create a source position with file information.
    pub fn in_file(file: String, line: usize, column: usize, offset: usize) -> (r: Self)
        ensures
            r@ == (PositionView { file: Some(file@), line, column, offset }),
    {
        SourcePosition { file: Some(file), line, column, offset }
    }

    /// A copy of this position.
    pub fn duplicate(&self) -> (r: Self)
        ensures
            r@ == self@,
    {
        SourcePosition { file: copy_opt_string(&self.file), line: self.line, column: self.column, offset: self.offset }
    }

    /// Get a display string for this position: `file:line:column`, or
    /// `line:column` when there is no file.
    pub fn display(&self) -> (r: String)
        ensures
            r@ == position_text(self@),
    {
        let mut out = String::new();
        match &self.file {
            Some(f) => {
                append(&mut out, f.as_str());
                append(&mut out, ":");
            },
            None => {},
        }
        push_decimal(&mut out, self.line as u64);
        append(&mut out, ":");
        push_decimal(&mut out, self.column as u64);
        assert(out@ =~= position_text(self@));
        out
    }

    /// Check if this position is valid (line and column both at least 1).
    pub fn is_valid(&self) -> (r: bool)
        ensures
            r == (self.line > 0 && self.column > 0),
    {
        self.line > 0 && self.column > 0
    }

    /// Create a range from this position to another.
    pub fn to(&self, end: &SourcePosition) -> (r: SourceRange)
        ensures
            r@ == (RangeView { start: self@, end: end@ }),
    {
        SourceRange { start: self.duplicate(), end: end.duplicate() }
    }

    /// This position with its file set to `file`.
    pub fn with_file(self, file: String) -> (r: Self)
        ensures
            r@ == (PositionView { file: Some(file@), ..self@ }),
    {
        let mut p = self;
        p.file = Some(file);
        p
    }
}

impl Default for SourcePosition {
    fn default() -> (r: Self)
        ensures
            r@ == (PositionView { file: None, line: 1, column: 1, offset: 0 }),
    {
        SourcePosition { file: None, line: 1, column: 1, offset: 0 }
    }
}

/// A source range as plain values.
pub struct RangeView {
    pub start: PositionView,
    pub end: PositionView,
}

/// Source range for multi-character spans.
#[derive(Debug, Clone)]
pub struct SourceRange {
    /// Start position
    pub start: SourcePosition,
    /// End position
    pub end: SourcePosition,
}

impl View for SourceRange {
    type V = RangeView;

    open spec fn view(&self) -> RangeView {
        RangeView { start: self.start@, end: self.end@ }
    }
}

/// `a - b`, or 0 when `b > a`.
pub open spec fn saturating_diff(a: usize, b: usize) -> usize {
    if a >= b { (a - b) as usize } else { 0 }
}

/// Length of a range: the column distance on a single line, the offset
/// distance across lines.
pub open spec fn range_length(r: RangeView) -> usize {
    if r.start.line == r.end.line {
        saturating_diff(r.end.column, r.start.column)
    } else {
        saturating_diff(r.end.offset, r.start.offset)
    }
}

/// Whether a range contains a position.
pub open spec fn range_contains(r: RangeView, p: PositionView) -> bool {
    if r.start.line == r.end.line {
        p.line == r.start.line && p.column >= r.start.column && p.column < r.end.column
    } else {
        (p.line > r.start.line && p.line < r.end.line)
        || (p.line == r.start.line && p.column >= r.start.column)
        || (p.line == r.end.line && p.column < r.end.column)
    }
}

/// Display text of a range.
pub open spec fn range_text(r: RangeView) -> Seq<char> {
    if r.start.file == r.end.file {
        let lines = if r.start.line == r.end.line {
            decimal(r.start.line as nat) + ":"@ + decimal(r.start.column as nat) + "-"@ + decimal(r.end.column as nat)
        } else {
            decimal(r.start.line as nat) + ":"@ + decimal(r.start.column as nat) + "-"@
                + decimal(r.end.line as nat) + ":"@ + decimal(r.end.column as nat)
        };
        match r.start.file {
            Some(f) => f + ":"@ + lines,
            None => lines,
        }
    } else {
        position_text(r.start) + " to "@ + position_text(r.end)
    }
}

fn same_opt_string(a: &Option<String>, b: &Option<String>) -> (r: bool)
    ensures
        r == (opt_text(*a) == opt_text(*b)),
{
    match (a, b) {
        (Some(x), Some(y)) => *x == *y,
        (None, None) => true,
        _ => false,
    }
}

impl SourceRange {
    /// Create a new source range.
    pub fn new(start: SourcePosition, end: SourcePosition) -> (r: Self)
        ensures
            r@ == (RangeView { start: start@, end: end@ }),
    {
        SourceRange { start, end }
    }

    /// Create a single-character range: the end is one column and one byte
    /// past the start.
    pub fn single_char(position: SourcePosition) -> (r: Self)
        requires
            position.column < usize::MAX,
            position.offset < usize::MAX,
        ensures
            r@ == (RangeView {
                start: position@,
                end: PositionView { column: (position.column + 1) as usize, offset: (position.offset + 1) as usize, ..position@ },
            }),
    {
        let mut end = position.duplicate();
        end.column = end.column + 1;
        end.offset = end.offset + 1;
        SourceRange { start: position, end }
    }

    /// Get the length of this range in characters.
    pub fn length(&self) -> (r: usize)
        ensures
            r == range_length(self@),
    {
        if self.start.line == self.end.line {
            if self.end.column >= self.start.column { self.end.column - self.start.column } else { 0 }
        } else {
            if self.end.offset >= self.start.offset { self.end.offset - self.start.offset } else { 0 }
        }
    }

    /// Check if this range contains a position.
    pub fn contains(&self, position: &SourcePosition) -> (r: bool)
        ensures
            r == range_contains(self@, position@),
    {
        if self.start.line == self.end.line {
            position.line == self.start.line && position.column >= self.start.column
                && position.column < self.end.column
        } else {
            (position.line > self.start.line && position.line < self.end.line)
                || (position.line == self.start.line && position.column >= self.start.column)
                || (position.line == self.end.line && position.column < self.end.column)
        }
    }

    /// Get a display string for this range.
    pub fn display(&self) -> (r: String)
        ensures
            r@ == range_text(self@),
    {
        if same_opt_string(&self.start.file, &self.end.file) {
            let mut out = String::new();
            match &self.start.file {
                Some(f) => {
                    append(&mut out, f.as_str());
                    append(&mut out, ":");
                },
                None => {},
            }
            let ghost prefix = out@;
            push_decimal(&mut out, self.start.line as u64);
            append(&mut out, ":");
            push_decimal(&mut out, self.start.column as u64);
            append(&mut out, "-");
            if self.start.line != self.end.line {
                push_decimal(&mut out, self.end.line as u64);
                append(&mut out, ":");
            }
            push_decimal(&mut out, self.end.column as u64);
            proof {
                let v = self@;
                let lines = if v.start.line == v.end.line {
                    decimal(v.start.line as nat) + ":"@ + decimal(v.start.column as nat) + "-"@ + decimal(v.end.column as nat)
                } else {
                    decimal(v.start.line as nat) + ":"@ + decimal(v.start.column as nat) + "-"@
                        + decimal(v.end.line as nat) + ":"@ + decimal(v.end.column as nat)
                };
                assert(out@ =~= prefix + lines);
                match v.start.file {
                    Some(f) => { assert(prefix =~= f + ":"@); assert(out@ =~= range_text(v)); },
                    None => { assert(prefix =~= Seq::<char>::empty()); assert(out@ =~= range_text(v)); },
                }
            }
            out
        } else {
            let mut out = self.start.display();
            append(&mut out, " to ");
            let e = self.end.display();
            append(&mut out, e.as_str());
            out
        }
    }
}

/// A text replacement as plain values.
pub struct ReplacementView {
    pub start: PositionView,
    pub end: PositionView,
    pub new_text: Seq<char>,
}

/// Text replacement for code fixes.
#[derive(Debug, Clone)]
pub struct TextReplacement {
    /// Start position in the source
    pub start: SourcePosition,
    /// End position in the source
    pub end: SourcePosition,
    /// New text to insert
    pub new_text: String,
}

impl View for TextReplacement {
    type V = ReplacementView;

    open spec fn view(&self) -> ReplacementView {
        ReplacementView { start: self.start@, end: self.end@, new_text: self.new_text@ }
    }
}

/// A code fix as plain values.
pub struct FixView {
    pub description: Seq<char>,
    pub replacements: Seq<ReplacementView>,
}

/// Code fix that can be automatically applied.
#[derive(Debug, Clone)]
pub struct CodeFix {
    /// Description of the fix
    pub description: String,
    /// Text replacements to apply
    pub replacements: Vec<TextReplacement>,
}

impl View for CodeFix {
    type V = FixView;

    open spec fn view(&self) -> FixView {
        FixView {
            description: self.description@,
            replacements: self.replacements@.map_values(|t: TextReplacement| t@),
        }
    }
}

impl CodeFix {
    /// Create a simple text replacement fix.
    pub fn replace_text(description: String, start: SourcePosition, end: SourcePosition, new_text: String) -> (r: Self)
        ensures
            r@ == (FixView {
                description: description@,
                replacements: seq![ReplacementView { start: start@, end: end@, new_text: new_text@ }],
            }),
    {
        let r = CodeFix { description, replacements: vec![TextReplacement { start, end, new_text }] };
        assert(r@.replacements =~= seq![ReplacementView { start: start@, end: end@, new_text: new_text@ }]);
        r
    }

    /// A copy of this fix.
    pub fn duplicate(&self) -> (r: Self)
        ensures
            r@ == self@,
    {
        let mut reps: Vec<TextReplacement> = Vec::new();
        let mut i: usize = 0;
        while i < self.replacements.len()
            invariant
                i <= self.replacements@.len(),
                reps@.len() == i,
                forall|j: int| 0 <= j < i ==> (#[trigger] reps@[j])@ == self.replacements@[j]@,
            decreases self.replacements@.len() - i,
        {
            let t = &self.replacements[i];
            reps.push(TextReplacement { start: t.start.duplicate(), end: t.end.duplicate(), new_text: t.new_text.clone() });
            i = i + 1;
        }
        assert(reps@.map_values(|t: TextReplacement| t@) =~= self.replacements@.map_values(|t: TextReplacement| t@));
        CodeFix { description: self.description.clone(), replacements: reps }
    }
}

/// A suggestion as plain values.
pub struct SuggestionView {
    pub message: Seq<char>,
    pub code_fix: Option<FixView>,
    pub confidence: u16,
    pub category: SuggestionCategory,
    pub priority: SuggestionPriority,
}

/// Structured error suggestion. The confidence is kept in thousandths:
/// 0 stands for no confidence and 1000 for full confidence.
#[derive(Debug, Clone)]
pub struct ErrorSuggestion {
    /// Human-readable suggestion message
    pub message: String,
    /// Optional code fix that can be applied
    pub code_fix: Option<CodeFix>,
    /// Confidence level in thousandths (0 to 1000)
    pub confidence: u16,
    /// Category of suggestion
    pub category: SuggestionCategory,
    /// Priority level
    pub priority: SuggestionPriority,
}

/// The plain value of an optional code fix.
pub open spec fn opt_fix(o: Option<CodeFix>) -> Option<FixView> {
    match o {
        Some(f) => Some(f@),
        None => None,
    }
}

impl View for ErrorSuggestion {
    type V = SuggestionView;

    open spec fn view(&self) -> SuggestionView {
        SuggestionView {
            message: self.message@,
            code_fix: opt_fix(self.code_fix),
            confidence: self.confidence,
            category: self.category,
            priority: self.priority,
        }
    }
}

/// A confidence limited to the range 0..=1000.
pub open spec fn clamp_confidence(c: u16) -> u16 {
    if c > 1000 { 1000 } else { c }
}

fn clamp_conf(c: u16) -> (r: u16)
    ensures
        r == clamp_confidence(c),
{
    if c > 1000 { 1000 } else { c }
}

/// Numeric value of a suggestion priority: Critical 5 down to Info 1.
pub open spec fn suggestion_priority_value(p: SuggestionPriority) -> u8 {
    match p {
        SuggestionPriority::Critical => 5,
        SuggestionPriority::High => 4,
        SuggestionPriority::Medium => 3,
        SuggestionPriority::Low => 2,
        SuggestionPriority::Info => 1,
    }
}

impl ErrorSuggestion {
    /// Create a new general-guidance suggestion of medium priority.
    pub fn new(message: String, confidence: u16) -> (r: Self)
        ensures
            r@ == (SuggestionView {
                message: message@,
                code_fix: None,
                confidence: clamp_confidence(confidence),
                category: SuggestionCategory::Guidance,
                priority: SuggestionPriority::Medium,
            }),
    {
        ErrorSuggestion {
            message,
            confidence: clamp_conf(confidence),
            code_fix: None,
            category: SuggestionCategory::Guidance,
            priority: SuggestionPriority::Medium,
        }
    }

    /// Create a syntax fix suggestion of high priority.
    pub fn syntax_fix(message: String, confidence: u16, code_fix: Option<CodeFix>) -> (r: Self)
        ensures
            r@ == (SuggestionView {
                message: message@,
                code_fix: opt_fix(code_fix),
                confidence: clamp_confidence(confidence),
                category: SuggestionCategory::SyntaxFix,
                priority: SuggestionPriority::High,
            }),
    {
        ErrorSuggestion {
            message,
            confidence: clamp_conf(confidence),
            code_fix,
            category: SuggestionCategory::SyntaxFix,
            priority: SuggestionPriority::High,
        }
    }

    /// Create a type fix suggestion of high priority.
    pub fn type_fix(message: String, confidence: u16, code_fix: Option<CodeFix>) -> (r: Self)
        ensures
            r@ == (SuggestionView {
                message: message@,
                code_fix: opt_fix(code_fix),
                confidence: clamp_confidence(confidence),
                category: SuggestionCategory::TypeFix,
                priority: SuggestionPriority::High,
            }),
    {
        ErrorSuggestion {
            message,
            confidence: clamp_conf(confidence),
            code_fix,
            category: SuggestionCategory::TypeFix,
            priority: SuggestionPriority::High,
        }
    }

    /// Create a security fix suggestion of critical priority.
    pub fn security_fix(message: String, confidence: u16) -> (r: Self)
        ensures
            r@ == (SuggestionView {
                message: message@,
                code_fix: None,
                confidence: clamp_confidence(confidence),
                category: SuggestionCategory::SecurityFix,
                priority: SuggestionPriority::Critical,
            }),
    {
        ErrorSuggestion {
            message,
            confidence: clamp_conf(confidence),
            code_fix: None,
            category: SuggestionCategory::SecurityFix,
            priority: SuggestionPriority::Critical,
        }
    }

    /// Create a guidance suggestion (confidence 700).
    pub fn guidance(message: String) -> (r: Self)
        ensures
            r@ == (SuggestionView {
                message: message@,
                code_fix: None,
                confidence: 700,
                category: SuggestionCategory::Guidance,
                priority: SuggestionPriority::Medium,
            }),
    {
        ErrorSuggestion {
            message,
            confidence: 700,
            code_fix: None,
            category: SuggestionCategory::Guidance,
            priority: SuggestionPriority::Medium,
        }
    }

    /// Create a simple text suggestion (confidence 800).
    pub fn simple(message: String) -> (r: Self)
        ensures
            r@ == (SuggestionView {
                message: message@,
                code_fix: None,
                confidence: 800,
                category: SuggestionCategory::Guidance,
                priority: SuggestionPriority::Medium,
            }),
    {
        ErrorSuggestion {
            message,
            code_fix: None,
            confidence: 800,
            category: SuggestionCategory::Guidance,
            priority: SuggestionPriority::Medium,
        }
    }

    /// Create a suggestion with a code fix (confidence 900).
    pub fn with_fix(message: String, code_fix: CodeFix) -> (r: Self)
        ensures
            r@ == (SuggestionView {
                message: message@,
                code_fix: Some(code_fix@),
                confidence: 900,
                category: SuggestionCategory::SyntaxFix,
                priority: SuggestionPriority::High,
            }),
    {
        ErrorSuggestion {
            message,
            code_fix: Some(code_fix),
            confidence: 900,
            category: SuggestionCategory::SyntaxFix,
            priority: SuggestionPriority::High,
        }
    }

    /// Check if this suggestion has an automatic fix.
    pub fn has_auto_fix(&self) -> (r: bool)
        ensures
            r == self.code_fix.is_some(),
    {
        self.code_fix.is_some()
    }

    /// Get the priority as a numeric value (higher = more important).
    pub fn priority_value(&self) -> (r: u8)
        ensures
            r == suggestion_priority_value(self.priority),
    {
        match self.priority {
            SuggestionPriority::Critical => 5,
            SuggestionPriority::High => 4,
            SuggestionPriority::Medium => 3,
            SuggestionPriority::Low => 2,
            SuggestionPriority::Info => 1,
        }
    }

    /// A copy of this suggestion.
    pub fn duplicate(&self) -> (r: Self)
        ensures
            r@ == self@,
    {
        let code_fix = match &self.code_fix {
            Some(f) => Some(f.duplicate()),
            None => None,
        };
        ErrorSuggestion {
            message: self.message.clone(),
            code_fix,
            confidence: self.confidence,
            category: self.category,
            priority: self.priority,
        }
    }
}

/// Types of learning resources.
#[derive(Debug, Clone, Copy, PartialEq, Eq, Structural)]
pub enum ResourceType {
    /// Official documentation
    Documentation,
    /// Tutorial or guide
    Tutorial,
    /// Example code
    Example,
    /// Video explanation
    Video,
    /// Interactive exercise
    Interactive,
    /// Community discussion
    Community,
}

/// Difficulty levels for learning resources.
#[derive(Debug, Clone, Copy, PartialEq, Eq, Structural)]
pub enum DifficultyLevel {
    /// Beginner level
    Beginner,
    /// Intermediate level
    Intermediate,
    /// Advanced level
    Advanced,
    /// Expert level
    Expert,
}

/// A learning resource as plain values.
pub struct ResourceView {
    pub title: Seq<char>,
    pub url: Seq<char>,
    pub resource_type: ResourceType,
    pub difficulty: DifficultyLevel,
}

/// Learning resource for error explanations.
#[derive(Debug, Clone)]
pub struct LearningResource {
    /// Title of the resource
    pub title: String,
    /// URL to the resource
    pub url: String,
    /// Type of resource
    pub resource_type: ResourceType,
    /// Difficulty level
    pub difficulty: DifficultyLevel,
}

impl View for LearningResource {
    type V = ResourceView;

    open spec fn view(&self) -> ResourceView {
        ResourceView { title: self.title@, url: self.url@, resource_type: self.resource_type, difficulty: self.difficulty }
    }
}

/// An explanation as plain values.
pub struct ExplanationView {
    pub what_happened: Seq<char>,
    pub why_it_happened: Seq<char>,
    pub how_to_fix: Seq<char>,
    pub related_concepts: Seq<Seq<char>>,
    pub example_fix: Option<Seq<char>>,
    pub common_mistakes: Seq<Seq<char>>,
    pub learning_resources: Seq<ResourceView>,
}

/// Explanation system for detailed error context.
#[derive(Debug, Clone)]
pub struct ErrorExplanation {
    /// Brief explanation of what went wrong
    pub what_happened: String,
    /// Why this error occurred
    pub why_it_happened: String,
    /// How to fix it
    pub how_to_fix: String,
    /// Related concepts to learn
    pub related_concepts: Vec<String>,
    /// Example of correct code
    pub example_fix: Option<String>,
    /// Common mistakes that lead to this error
    pub common_mistakes: Vec<String>,
    /// Learning resources
    pub learning_resources: Vec<LearningResource>,
}

impl View for ErrorExplanation {
    type V = ExplanationView;

    open spec fn view(&self) -> ExplanationView {
        ExplanationView {
            what_happened: self.what_happened@,
            why_it_happened: self.why_it_happened@,
            how_to_fix: self.how_to_fix@,
            related_concepts: self.related_concepts@.map_values(|s: String| s@),
            example_fix: opt_text(self.example_fix),
            common_mistakes: self.common_mistakes@.map_values(|s: String| s@),
            learning_resources: self.learning_resources@.map_values(|r: LearningResource| r@),
        }
    }
}

/// The four explanation texts the library knows.
#[derive(Debug, Clone, Copy, PartialEq, Eq, Structural)]
pub enum ExplanationKind { LexInvalid, ParseExpected, TypeMismatch, General }

/// Which explanation an error code receives.
pub open spec fn explanation_kind(code: ErrorCode) -> ExplanationKind {
    match code {
        ErrorCode::ELex001 => ExplanationKind::LexInvalid,
        ErrorCode::EParse001 => ExplanationKind::ParseExpected,
        ErrorCode::EType001 => ExplanationKind::TypeMismatch,
        _ => ExplanationKind::General,
    }
}

/// The contents of an explanation, as plain values.
pub open spec fn explanation_view(k: ExplanationKind) -> ExplanationView {
    match k {
        ExplanationKind::LexInvalid => ExplanationView {
            what_happened: "The lexer encountered an invalid character that is not part of the Ovie language syntax."@,
            why_it_happened: "This usually happens when you have a typo, use a character that's not allowed in Ovie, or have encoding issues."@,
            how_to_fix: "Check for typos, ensure you're using valid Ovie syntax, and verify your file encoding is UTF-8."@,
            related_concepts: seq!["lexical analysis"@, "character encoding"@, "syntax rules"@],
            example_fix: Some("// Instead of: let x = 42@;\n// Use: let x = 42;"@),
            common_mistakes: seq!["Using special characters from other languages"@, "Copy-pasting code with invisible characters"@, "File encoding issues"@],
            learning_resources: seq![ResourceView { title: "Ovie Lexical Rules"@, url: "https://ovie-lang.org/docs/lexical-rules"@, resource_type: ResourceType::Documentation, difficulty: DifficultyLevel::Beginner }],
        },
        ExplanationKind::ParseExpected => ExplanationView {
            what_happened: "The parser expected a specific token but found something else."@,
            why_it_happened: "This occurs when the syntax doesn't match what the parser expects at this point in the code."@,
            how_to_fix: "Check the syntax around the error location and ensure it follows Ovie's grammar rules."@,
            related_concepts: seq!["parsing"@, "grammar rules"@, "syntax"@],
            example_fix: Some("// Instead of: if x == 42 { print(\"yes\") }\n// Use: if x == 42 { print(\"yes\"); }"@),
            common_mistakes: seq!["Missing semicolons"@, "Incorrect bracket matching"@, "Wrong keyword usage"@],
            learning_resources: seq![ResourceView { title: "Ovie Syntax Guide"@, url: "https://ovie-lang.org/docs/syntax"@, resource_type: ResourceType::Documentation, difficulty: DifficultyLevel::Beginner }],
        },
        ExplanationKind::TypeMismatch => ExplanationView {
            what_happened: "There's a mismatch between the expected type and the actual type of a value."@,
            why_it_happened: "Ovie has a strong type system that prevents mixing incompatible types without explicit conversion."@,
            how_to_fix: "Either change the value to match the expected type, or add an explicit type conversion."@,
            related_concepts: seq!["type system"@, "type safety"@, "type conversion"@],
            example_fix: Some("// Instead of: let x: i32 = \"42\";\n// Use: let x: i32 = 42; or let x: i32 = \"42\".parse().unwrap();"@),
            common_mistakes: seq!["Mixing strings and numbers"@, "Forgetting type annotations"@, "Incorrect function return types"@],
            learning_resources: seq![ResourceView { title: "Understanding Ovie's Type System"@, url: "https://ovie-lang.org/docs/types"@, resource_type: ResourceType::Documentation, difficulty: DifficultyLevel::Intermediate }],
        },
        ExplanationKind::General => ExplanationView {
            what_happened: "An error occurred during compilation."@,
            why_it_happened: "The specific cause depends on the error code and context."@,
            how_to_fix: "Check the error message and location for specific guidance."@,
            related_concepts: seq!["debugging"@, "error handling"@],
            example_fix: None,
            common_mistakes: seq!["Various syntax and semantic issues"@],
            learning_resources: seq![ResourceView { title: "Ovie Error Guide"@, url: "https://ovie-lang.org/docs/errors"@, resource_type: ResourceType::Documentation, difficulty: DifficultyLevel::Beginner }],
        },
    }
}

fn strings_of(items: &[&str]) -> (v: Vec<String>)
    ensures
        v@.len() == items@.len(),
        forall|i: int| 0 <= i < items@.len() ==> #[trigger] v@[i]@ == items@[i]@,
{
    let mut v: Vec<String> = Vec::new();
    let mut i: usize = 0;
    while i < items.len()
        invariant
            i <= items@.len(),
            v@.len() == i,
            forall|j: int| 0 <= j < i ==> #[trigger] v@[j]@ == items@[j]@,
        decreases items@.len() - i,
    {
        v.push(owned(items[i]));
        i = i + 1;
    }
    v
}

fn explanation_for_kind(k: ExplanationKind) -> (r: ErrorExplanation)
    ensures
        r@ == explanation_view(k),
{
    let r = match k {
        ExplanationKind::LexInvalid => ErrorExplanation {
            what_happened: owned("The lexer encountered an invalid character that is not part of the Ovie language syntax."),
            why_it_happened: owned("This usually happens when you have a typo, use a character that's not allowed in Ovie, or have encoding issues."),
            how_to_fix: owned("Check for typos, ensure you're using valid Ovie syntax, and verify your file encoding is UTF-8."),
            related_concepts: strings_of(&["lexical analysis", "character encoding", "syntax rules"]),
            example_fix: Some(owned("// Instead of: let x = 42@;\n// Use: let x = 42;")),
            common_mistakes: strings_of(&["Using special characters from other languages", "Copy-pasting code with invisible characters", "File encoding issues"]),
            learning_resources: vec![LearningResource { title: owned("Ovie Lexical Rules"), url: owned("https://ovie-lang.org/docs/lexical-rules"), resource_type: ResourceType::Documentation, difficulty: DifficultyLevel::Beginner }],
        },
        ExplanationKind::ParseExpected => ErrorExplanation {
            what_happened: owned("The parser expected a specific token but found something else."),
            why_it_happened: owned("This occurs when the syntax doesn't match what the parser expects at this point in the code."),
            how_to_fix: owned("Check the syntax around the error location and ensure it follows Ovie's grammar rules."),
            related_concepts: strings_of(&["parsing", "grammar rules", "syntax"]),
            example_fix: Some(owned("// Instead of: if x == 42 { print(\"yes\") }\n// Use: if x == 42 { print(\"yes\"); }")),
            common_mistakes: strings_of(&["Missing semicolons", "Incorrect bracket matching", "Wrong keyword usage"]),
            learning_resources: vec![LearningResource { title: owned("Ovie Syntax Guide"), url: owned("https://ovie-lang.org/docs/syntax"), resource_type: ResourceType::Documentation, difficulty: DifficultyLevel::Beginner }],
        },
        ExplanationKind::TypeMismatch => ErrorExplanation {
            what_happened: owned("There's a mismatch between the expected type and the actual type of a value."),
            why_it_happened: owned("Ovie has a strong type system that prevents mixing incompatible types without explicit conversion."),
            how_to_fix: owned("Either change the value to match the expected type, or add an explicit type conversion."),
            related_concepts: strings_of(&["type system", "type safety", "type conversion"]),
            example_fix: Some(owned("// Instead of: let x: i32 = \"42\";\n// Use: let x: i32 = 42; or let x: i32 = \"42\".parse().unwrap();")),
            common_mistakes: strings_of(&["Mixing strings and numbers", "Forgetting type annotations", "Incorrect function return types"]),
            learning_resources: vec![LearningResource { title: owned("Understanding Ovie's Type System"), url: owned("https://ovie-lang.org/docs/types"), resource_type: ResourceType::Documentation, difficulty: DifficultyLevel::Intermediate }],
        },
        ExplanationKind::General => ErrorExplanation {
            what_happened: owned("An error occurred during compilation."),
            why_it_happened: owned("The specific cause depends on the error code and context."),
            how_to_fix: owned("Check the error message and location for specific guidance."),
            related_concepts: strings_of(&["debugging", "error handling"]),
            example_fix: None,
            common_mistakes: strings_of(&["Various syntax and semantic issues"]),
            learning_resources: vec![LearningResource { title: owned("Ovie Error Guide"), url: owned("https://ovie-lang.org/docs/errors"), resource_type: ResourceType::Documentation, difficulty: DifficultyLevel::Beginner }],
        },
    };
    proof { assert(r@.related_concepts =~= explanation_view(k).related_concepts); assert(r@.common_mistakes =~= explanation_view(k).common_mistakes); assert(r@.learning_resources =~= explanation_view(k).learning_resources); }
    r
}

impl ErrorExplanation {
    /// Create a comprehensive explanation for an error code: `E_LEX_001`,
    /// `E_PARSE_001` and `E_TYPE_001` have their own texts, every other code
    /// receives the general explanation.
    pub fn for_error_code(error_code: &ErrorCode) -> (r: Self)
        ensures
            r@ == explanation_view(explanation_kind(*error_code)),
    {
        let k = match error_code {
            ErrorCode::ELex001 => ExplanationKind::LexInvalid,
            ErrorCode::EParse001 => ExplanationKind::ParseExpected,
            ErrorCode::EType001 => ExplanationKind::TypeMismatch,
            _ => ExplanationKind::General,
        };
        explanation_for_kind(k)
    }
}

/// A diagnostic as plain values.
pub struct DiagnosticView {
    pub code: Seq<char>,
    pub severity: ErrorSeverity,
    pub category: ErrorCategory,
    pub message: Seq<char>,
    pub location: PositionView,
    pub related_locations: Seq<(PositionView, Seq<char>)>,
    pub suggestions: Seq<SuggestionView>,
    pub context: Seq<(Seq<char>, Seq<char>)>,
    pub help_url: Option<Seq<char>>,
}

/// Comprehensive diagnostic information. The context entries are kept in
/// the order in which they were added.
#[derive(Debug, Clone)]
pub struct Diagnostic {
    /// Unique error code
    pub code: String,
    /// Error severity
    pub severity: ErrorSeverity,
    /// Error category
    pub category: ErrorCategory,
    /// Primary error message
    pub message: String,
    /// Source location where the error occurred
    pub location: SourcePosition,
    /// Optional secondary locations (for related errors)
    pub related_locations: Vec<(SourcePosition, String)>,
    /// Suggestions for fixing the error
    pub suggestions: Vec<ErrorSuggestion>,
    /// Additional context information, as (key, value) pairs
    pub context: Vec<(String, String)>,
    /// Help URL for more information
    pub help_url: Option<String>,
}

impl View for Diagnostic {
    type V = DiagnosticView;

    open spec fn view(&self) -> DiagnosticView {
        DiagnosticView {
            code: self.code@,
            severity: self.severity,
            category: self.category,
            message: self.message@,
            location: self.location@,
            related_locations: self.related_locations@.map_values(|p: (SourcePosition, String)| (p.0@, p.1@)),
            suggestions: self.suggestions@.map_values(|s: ErrorSuggestion| s@),
            context: self.context@.map_values(|p: (String, String)| (p.0@, p.1@)),
            help_url: opt_text(self.help_url),
        }
    }
}

/// The plain values of a list of suggestions.
pub open spec fn suggestion_views(v: Seq<ErrorSuggestion>) -> Seq<SuggestionView> {
    v.map_values(|s: ErrorSuggestion| s@)
}

impl Diagnostic {
    /// A copy of this diagnostic.
    pub fn duplicate(&self) -> (r: Self)
        ensures
            r@ == self@,
    {
        let mut related: Vec<(SourcePosition, String)> = Vec::new();
        let mut i: usize = 0;
        while i < self.related_locations.len()
            invariant
                i <= self.related_locations@.len(),
                related@.len() == i,
                forall|j: int| 0 <= j < i ==> (#[trigger] related@[j]).0@ == self.related_locations@[j].0@
                    && related@[j].1@ == self.related_locations@[j].1@,
            decreases self.related_locations@.len() - i,
        {
            let p = &self.related_locations[i];
            related.push((p.0.duplicate(), p.1.clone()));
            i = i + 1;
        }
        let mut suggestions: Vec<ErrorSuggestion> = Vec::new();
        let mut i: usize = 0;
        while i < self.suggestions.len()
            invariant
                i <= self.suggestions@.len(),
                suggestions@.len() == i,
                forall|j: int| 0 <= j < i ==> (#[trigger] suggestions@[j])@ == self.suggestions@[j]@,
            decreases self.suggestions@.len() - i,
        {
            suggestions.push(self.suggestions[i].duplicate());
            i = i + 1;
        }
        let mut context: Vec<(String, String)> = Vec::new();
        let mut i: usize = 0;
        while i < self.context.len()
            invariant
                i <= self.context@.len(),
                context@.len() == i,
                forall|j: int| 0 <= j < i ==> (#[trigger] context@[j]).0@ == self.context@[j].0@
                    && context@[j].1@ == self.context@[j].1@,
            decreases self.context@.len() - i,
        {
            let p = &self.context[i];
            context.push((p.0.clone(), p.1.clone()));
            i = i + 1;
        }
        let r = Diagnostic {
            code: self.code.clone(),
            severity: self.severity,
            category: self.category,
            message: self.message.clone(),
            location: self.location.duplicate(),
            related_locations: related,
            suggestions,
            context,
            help_url: copy_opt_string(&self.help_url),
        };
        assert(r@.related_locations =~= self@.related_locations);
        assert(r@.suggestions =~= self@.suggestions);
        assert(r@.context =~= self@.context);
        r
    }
}

/// The address of the documentation page of an error code.
pub open spec fn help_url_for(code: Seq<char>) -> Seq<char> {
    "https://ovie-lang.org/docs/errors/"@ + code
}

/// A diagnostic of severity Error with no related locations, suggestions or
/// context, located at `line:column` (offset 0, no file), with the help
/// page of its code.
pub open spec fn plain_diagnostic(code: Seq<char>, category: ErrorCategory, message: Seq<char>, line: usize, column: usize) -> DiagnosticView {
    DiagnosticView {
        code,
        severity: ErrorSeverity::Error,
        category,
        message,
        location: PositionView { file: None, line, column, offset: 0 },
        related_locations: seq![],
        suggestions: seq![],
        context: seq![],
        help_url: Some(help_url_for(code)),
    }
}

/// Builds a diagnostic of the shape `plain_diagnostic` describes, with the
/// given severity, suggestions and context.
fn make_diagnostic(
    code: &str,
    severity: ErrorSeverity,
    category: ErrorCategory,
    message: String,
    line: usize,
    column: usize,
    suggestions: Vec<ErrorSuggestion>,
    context: Vec<(String, String)>,
) -> (r: Diagnostic)
    ensures
        r@ == (DiagnosticView {
            severity,
            suggestions: suggestion_views(suggestions@),
            context: context@.map_values(|p: (String, String)| (p.0@, p.1@)),
            ..plain_diagnostic(code@, category, message@, line, column)
        }),
{
    let mut url = owned("https://ovie-lang.org/docs/errors/");
    append(&mut url, code);
    let r = Diagnostic {
        code: owned(code),
        severity,
        category,
        message,
        location: SourcePosition { file: None, line, column, offset: 0 },
        related_locations: Vec::new(),
        suggestions,
        context,
        help_url: Some(url),
    };
    assert(r@.related_locations =~= seq![]);
    r
}

/// Main error type for the Ovie compiler.
#[derive(Debug, Clone)]
pub enum OvieError {
    /// Comprehensive diagnostic error
    Diagnostic { diagnostic: Diagnostic },
    /// Lexical error at a line and column
    LexError { line: usize, column: usize, message: String },
    /// Parse error at a line and column
    ParseError { line: usize, column: usize, message: String },
    /// Semantic error at a line and column
    SemanticError { line: usize, column: usize, message: String },
    /// Runtime error
    RuntimeError { message: String },
    /// Input/output error
    IoError { message: String },
    /// Intermediate representation error
    IrError { message: String },
    /// Code generation error
    CodegenError { message: String },
    /// Generic error
    Generic { message: String },
    /// Violation of a compiler invariant in a stage
    InvariantViolation { stage: String, message: String },
    /// Hardware error
    HardwareError(String),
    /// Compilation error
    CompileError { message: String },
    /// JSON serialization/deserialization error
    SerdeJson(String),
}

/// An error as plain values.
pub enum ErrorView {
    Diagnostic(DiagnosticView),
    LexError(usize, usize, Seq<char>),
    ParseError(usize, usize, Seq<char>),
    SemanticError(usize, usize, Seq<char>),
    RuntimeError(Seq<char>),
    IoError(Seq<char>),
    IrError(Seq<char>),
    CodegenError(Seq<char>),
    Generic(Seq<char>),
    InvariantViolation(Seq<char>, Seq<char>),
    HardwareError(Seq<char>),
    CompileError(Seq<char>),
    SerdeJson(Seq<char>),
}

impl View for OvieError {
    type V = ErrorView;

    open spec fn view(&self) -> ErrorView {
        match self {
            OvieError::Diagnostic { diagnostic } => ErrorView::Diagnostic(diagnostic@),
            OvieError::LexError { line, column, message } => ErrorView::LexError(*line, *column, message@),
            OvieError::ParseError { line, column, message } => ErrorView::ParseError(*line, *column, message@),
            OvieError::SemanticError { line, column, message } => ErrorView::SemanticError(*line, *column, message@),
            OvieError::RuntimeError { message } => ErrorView::RuntimeError(message@),
            OvieError::IoError { message } => ErrorView::IoError(message@),
            OvieError::IrError { message } => ErrorView::IrError(message@),
            OvieError::CodegenError { message } => ErrorView::CodegenError(message@),
            OvieError::Generic { message } => ErrorView::Generic(message@),
            OvieError::InvariantViolation { stage, message } => ErrorView::InvariantViolation(stage@, message@),
            OvieError::HardwareError(m) => ErrorView::HardwareError(m@),
            OvieError::CompileError { message } => ErrorView::CompileError(message@),
            OvieError::SerdeJson(m) => ErrorView::SerdeJson(m@),
        }
    }
}

/// The diagnostic an error converts to: a diagnostic error is its own
/// diagnostic, every other error becomes a plain diagnostic with its own
/// code and category (errors without a position are placed at 1:1).
pub open spec fn diagnostic_of(e: ErrorView) -> DiagnosticView {
    match e {
        ErrorView::Diagnostic(d) => d,
        ErrorView::LexError(l, c, m) => plain_diagnostic("E0001"@, ErrorCategory::Syntax, m, l, c),
        ErrorView::ParseError(l, c, m) => plain_diagnostic("E0002"@, ErrorCategory::Syntax, m, l, c),
        ErrorView::SemanticError(l, c, m) => plain_diagnostic("E0005"@, ErrorCategory::Semantic, m, l, c),
        ErrorView::RuntimeError(m) => plain_diagnostic("E0006"@, ErrorCategory::Runtime, m, 1, 1),
        ErrorView::IoError(m) => plain_diagnostic("E0007"@, ErrorCategory::Io, m, 1, 1),
        ErrorView::IrError(m) => plain_diagnostic("E0008"@, ErrorCategory::Codegen, m, 1, 1),
        ErrorView::CodegenError(m) => plain_diagnostic("E0009"@, ErrorCategory::Codegen, m, 1, 1),
        ErrorView::Generic(m) => plain_diagnostic("E0010"@, ErrorCategory::Syntax, m, 1, 1),
        ErrorView::HardwareError(m) => plain_diagnostic("E0011"@, ErrorCategory::Runtime, m, 1, 1),
        ErrorView::CompileError(m) => plain_diagnostic("E0012"@, ErrorCategory::Codegen, m, 1, 1),
        ErrorView::SerdeJson(m) => plain_diagnostic(
            "E0013"@,
            ErrorCategory::Io,
            "JSON serialization/deserialization error: "@ + m,
            1,
            1,
        ),
        ErrorView::InvariantViolation(s, m) => plain_diagnostic(
            "E0014"@,
            ErrorCategory::Semantic,
            "Invariant violation in "@ + s + ": "@ + m,
            1,
            1,
        ),
    }
}

impl OvieError {
    /// Create a comprehensive diagnostic error.
    pub fn diagnostic(diagnostic: Diagnostic) -> (r: Self)
        ensures
            r@ == ErrorView::Diagnostic(diagnostic@),
    {
        OvieError::Diagnostic { diagnostic }
    }

    /// Create an invariant violation error.
    pub fn invariant_violation(stage: String, message: String) -> (r: Self)
        ensures
            r@ == ErrorView::InvariantViolation(stage@, message@),
    {
        OvieError::InvariantViolation { stage, message }
    }

    /// Create a new lexer error with suggestions (code `E0001`).
    pub fn lex_error_with_suggestions(line: usize, column: usize, message: String, suggestions: Vec<ErrorSuggestion>) -> (r: Self)
        ensures
            r@ == ErrorView::Diagnostic(DiagnosticView {
                suggestions: suggestion_views(suggestions@),
                ..plain_diagnostic("E0001"@, ErrorCategory::Syntax, message@, line, column)
            }),
    {
        let d = make_diagnostic("E0001", ErrorSeverity::Error, ErrorCategory::Syntax, message, line, column, suggestions, Vec::new());
        assert(d@.context =~= seq![]);
        OvieError::Diagnostic { diagnostic: d }
    }

    /// Create a new parse error with suggestions (code `E0002`).
    pub fn parse_error_with_suggestions(line: usize, column: usize, message: String, suggestions: Vec<ErrorSuggestion>) -> (r: Self)
        ensures
            r@ == ErrorView::Diagnostic(DiagnosticView {
                suggestions: suggestion_views(suggestions@),
                ..plain_diagnostic("E0002"@, ErrorCategory::Syntax, message@, line, column)
            }),
    {
        let d = make_diagnostic("E0002", ErrorSeverity::Error, ErrorCategory::Syntax, message, line, column, suggestions, Vec::new());
        assert(d@.context =~= seq![]);
        OvieError::Diagnostic { diagnostic: d }
    }

    /// Create a type error with suggestions (code `E0003`); the context
    /// records the expected and the found type.
    pub fn type_error(line: usize, column: usize, expected: &str, found: &str, suggestions: Vec<ErrorSuggestion>) -> (r: Self)
        ensures
            r@ == ErrorView::Diagnostic(DiagnosticView {
                suggestions: suggestion_views(suggestions@),
                context: seq![("expected_type"@, expected@), ("found_type"@, found@)],
                ..plain_diagnostic(
                    "E0003"@,
                    ErrorCategory::Type,
                    "Type mismatch: expected "@ + expected@ + ", found "@ + found@,
                    line,
                    column,
                )
            }),
    {
        let mut message = owned("Type mismatch: expected ");
        append(&mut message, expected);
        append(&mut message, ", found ");
        append(&mut message, found);
        let context = vec![(owned("expected_type"), owned(expected)), (owned("found_type"), owned(found))];
        let d = make_diagnostic("E0003", ErrorSeverity::Error, ErrorCategory::Type, message, line, column, suggestions, context);
        assert(d@.context =~= seq![("expected_type"@, expected@), ("found_type"@, found@)]);
        OvieError::Diagnostic { diagnostic: d }
    }

    /// Create a security error with suggestions (code `E0004`, severity
    /// Warning); the context records the unsafe operation.
    pub fn security_error(line: usize, column: usize, operation: &str, suggestions: Vec<ErrorSuggestion>) -> (r: Self)
        ensures
            r@ == ErrorView::Diagnostic(DiagnosticView {
                severity: ErrorSeverity::Warning,
                suggestions: suggestion_views(suggestions@),
                context: seq![("unsafe_operation"@, operation@)],
                ..plain_diagnostic("E0004"@, ErrorCategory::Security, "Unsafe operation detected: "@ + operation@, line, column)
            }),
    {
        let mut message = owned("Unsafe operation detected: ");
        append(&mut message, operation);
        let context = vec![(owned("unsafe_operation"), owned(operation))];
        let d = make_diagnostic("E0004", ErrorSeverity::Warning, ErrorCategory::Security, message, line, column, suggestions, context);
        assert(d@.context =~= seq![("unsafe_operation"@, operation@)]);
        OvieError::Diagnostic { diagnostic: d }
    }

    /// Lexer error at a line and column.
    pub fn lex_error(line: usize, column: usize, message: String) -> (r: Self)
        ensures
            r@ == ErrorView::LexError(line, column, message@),
    {
        OvieError::LexError { line, column, message }
    }

    /// Parse error at a line and column.
    pub fn parse_error(line: usize, column: usize, message: String) -> (r: Self)
        ensures
            r@ == ErrorView::ParseError(line, column, message@),
    {
        OvieError::ParseError { line, column, message }
    }

    /// Semantic error at a line and column.
    pub fn semantic_error(line: usize, column: usize, message: String) -> (r: Self)
        ensures
            r@ == ErrorView::SemanticError(line, column, message@),
    {
        OvieError::SemanticError { line, column, message }
    }

    /// Runtime error.
    pub fn runtime_error(message: String) -> (r: Self)
        ensures
            r@ == ErrorView::RuntimeError(message@),
    {
        OvieError::RuntimeError { message }
    }

    /// Input/output error.
    pub fn io_error(message: String) -> (r: Self)
        ensures
            r@ == ErrorView::IoError(message@),
    {
        OvieError::IoError { message }
    }

    /// Intermediate representation error.
    pub fn ir_error(message: String) -> (r: Self)
        ensures
            r@ == ErrorView::IrError(message@),
    {
        OvieError::IrError { message }
    }

    /// Code generation error.
    pub fn codegen_error(message: String) -> (r: Self)
        ensures
            r@ == ErrorView::CodegenError(message@),
    {
        OvieError::CodegenError { message }
    }

    /// Generic error.
    pub fn generic(message: String) -> (r: Self)
        ensures
            r@ == ErrorView::Generic(message@),
    {
        OvieError::Generic { message }
    }

    /// Compilation error.
    pub fn compilation_error(message: String) -> (r: Self)
        ensures
            r@ == ErrorView::CompileError(message@),
    {
        OvieError::CompileError { message }
    }

    /// Get the diagnostic information if available.
    pub fn get_diagnostic(&self) -> (r: Option<&Diagnostic>)
        ensures
            match self@ {
                ErrorView::Diagnostic(d) => r is Some && r.unwrap()@ == d,
                _ => r is None,
            },
    {
        match self {
            OvieError::Diagnostic { diagnostic } => Some(diagnostic),
            _ => None,
        }
    }

    /// Convert this error to a diagnostic, consuming it.
    pub fn into_diagnostic(self) -> (r: Diagnostic)
        ensures
            r@ == diagnostic_of(self@),
    {
        let none = Vec::new();
        let nctx = Vec::new();
        let r = match self {
            OvieError::Diagnostic { diagnostic } => diagnostic,
            OvieError::LexError { line, column, message } =>
                make_diagnostic("E0001", ErrorSeverity::Error, ErrorCategory::Syntax, message, line, column, none, nctx),
            OvieError::ParseError { line, column, message } =>
                make_diagnostic("E0002", ErrorSeverity::Error, ErrorCategory::Syntax, message, line, column, none, nctx),
            OvieError::SemanticError { line, column, message } =>
                make_diagnostic("E0005", ErrorSeverity::Error, ErrorCategory::Semantic, message, line, column, none, nctx),
            OvieError::RuntimeError { message } =>
                make_diagnostic("E0006", ErrorSeverity::Error, ErrorCategory::Runtime, message, 1, 1, none, nctx),
            OvieError::IoError { message } =>
                make_diagnostic("E0007", ErrorSeverity::Error, ErrorCategory::Io, message, 1, 1, none, nctx),
            OvieError::IrError { message } =>
                make_diagnostic("E0008", ErrorSeverity::Error, ErrorCategory::Codegen, message, 1, 1, none, nctx),
            OvieError::CodegenError { message } =>
                make_diagnostic("E0009", ErrorSeverity::Error, ErrorCategory::Codegen, message, 1, 1, none, nctx),
            OvieError::Generic { message } =>
                make_diagnostic("E0010", ErrorSeverity::Error, ErrorCategory::Syntax, message, 1, 1, none, nctx),
            OvieError::HardwareError(message) =>
                make_diagnostic("E0011", ErrorSeverity::Error, ErrorCategory::Runtime, message, 1, 1, none, nctx),
            OvieError::CompileError { message } =>
                make_diagnostic("E0012", ErrorSeverity::Error, ErrorCategory::Codegen, message, 1, 1, none, nctx),
            OvieError::SerdeJson(e) => {
                let mut message = owned("JSON serialization/deserialization error: ");
                append(&mut message, e.as_str());
                make_diagnostic("E0013", ErrorSeverity::Error, ErrorCategory::Io, message, 1, 1, none, nctx)
            },
            OvieError::InvariantViolation { stage, message } => {
                let mut text = owned("Invariant violation in ");
                append(&mut text, stage.as_str());
                append(&mut text, ": ");
                append(&mut text, message.as_str());
                make_diagnostic("E0014", ErrorSeverity::Error, ErrorCategory::Semantic, text, 1, 1, none, nctx)
            },
        };
        proof {
            assert(suggestion_views(none@) =~= seq![]);
            assert(nctx@.map_values(|p: (String, String)| (p.0@, p.1@)) =~= seq![]);
        }
        r
    }

    /// A copy of this error.
    pub fn duplicate(&self) -> (r: Self)
        ensures
            r@ == self@,
    {
        match self {
            OvieError::Diagnostic { diagnostic } => OvieError::Diagnostic { diagnostic: diagnostic.duplicate() },
            OvieError::LexError { line, column, message } => OvieError::LexError { line: *line, column: *column, message: message.clone() },
            OvieError::ParseError { line, column, message } => OvieError::ParseError { line: *line, column: *column, message: message.clone() },
            OvieError::SemanticError { line, column, message } => OvieError::SemanticError { line: *line, column: *column, message: message.clone() },
            OvieError::RuntimeError { message } => OvieError::RuntimeError { message: message.clone() },
            OvieError::IoError { message } => OvieError::IoError { message: message.clone() },
            OvieError::IrError { message } => OvieError::IrError { message: message.clone() },
            OvieError::CodegenError { message } => OvieError::CodegenError { message: message.clone() },
            OvieError::Generic { message } => OvieError::Generic { message: message.clone() },
            OvieError::InvariantViolation { stage, message } => OvieError::InvariantViolation { stage: stage.clone(), message: message.clone() },
            OvieError::HardwareError(m) => OvieError::HardwareError(m.clone()),
            OvieError::CompileError { message } => OvieError::CompileError { message: message.clone() },
            OvieError::SerdeJson(m) => OvieError::SerdeJson(m.clone()),
        }
    }

    /// Convert this error to a diagnostic.
    pub fn to_diagnostic(&self) -> (r: Diagnostic)
        ensures
            r@ == diagnostic_of(self@),
    {
        self.duplicate().into_diagnostic()
    }
}

/// Result type for Ovie operations.
pub type OvieResult<T> = Result<T, OvieError>;

/// Source location information (legacy).
#[derive(Debug, Clone, Copy, PartialEq, Eq, Structural)]
pub struct SourceLocation {
    pub line: usize,
    pub column: usize,
    pub offset: usize,
}

impl SourceLocation {
    /// Create a source location.
    pub fn new(line: usize, column: usize, offset: usize) -> (r: Self)
        ensures
            r == (SourceLocation { line, column, offset }),
    {
        SourceLocation { line, column, offset }
    }
}

impl Default for SourceLocation {
    fn default() -> (r: Self)
        ensures
            r == (SourceLocation { line: 1, column: 1, offset: 0 }),
    {
        SourceLocation { line: 1, column: 1, offset: 0 }
    }
}


/// Number of diagnostics of severity `sev` in `ds`.
pub open spec fn count_severity(ds: Seq<DiagnosticView>, sev: ErrorSeverity) -> nat
    decreases ds.len(),
{
    if ds.len() == 0 {
        0
    } else {
        count_severity(ds.drop_last(), sev) + if ds.last().severity == sev { 1nat } else { 0nat }
    }
}

/// The location line of a diagnostic in a human-readable report.
pub open spec fn location_report(p: PositionView) -> Seq<char> {
    match p.file {
        Some(f) => "  --> "@ + f + ":"@ + decimal(p.line as nat) + ":"@ + decimal(p.column as nat) + "\n"@,
        None => "  --> line "@ + decimal(p.line as nat) + ", column "@ + decimal(p.column as nat) + "\n"@,
    }
}

/// One `help:` line per suggestion, in order.
pub open spec fn suggestions_report(ss: Seq<SuggestionView>) -> Seq<char>
    decreases ss.len(),
{
    if ss.len() == 0 {
        seq![]
    } else {
        suggestions_report(ss.drop_last()) + "  help: "@ + ss.last().message + "\n"@
    }
}

/// The block a human-readable report gives one diagnostic: a header
/// `severity: message [code]`, its location, its suggestions, its help
/// page if any, and an empty line.
pub open spec fn diagnostic_report(d: DiagnosticView) -> Seq<char> {
    severity_text(d.severity) + ": "@ + d.message + " ["@ + d.code + "]\n"@
        + location_report(d.location)
        + suggestions_report(d.suggestions)
        + match d.help_url {
            Some(u) => "  For more information, see: "@ + u + "\n"@,
            None => seq![],
        }
        + "\n"@
}

/// The blocks of all diagnostics, in order.
pub open spec fn diagnostics_report(ds: Seq<DiagnosticView>) -> Seq<char>
    decreases ds.len(),
{
    if ds.len() == 0 {
        seq![]
    } else {
        diagnostics_report(ds.drop_last()) + diagnostic_report(ds.last())
    }
}

/// The closing line of a report with `n` errors: nothing when there are
/// none.
pub open spec fn abort_report(n: nat) -> Seq<char> {
    if n == 0 {
        seq![]
    } else {
        "error: aborting due to "@ + decimal(n) + " previous error"@ + (if n == 1 { seq![] } else { "s"@ }) + "\n"@
    }
}

/// Error reporter state as plain values.
pub struct ReporterView {
    pub diagnostics: Seq<DiagnosticView>,
    pub max_errors: usize,
}

/// Error reporter for IDE integration and batch reporting. It keeps at
/// most `max_errors` diagnostics: once full, further ones are dropped.
#[derive(Debug, Clone)]
pub struct ErrorReporter {
    /// Collected diagnostics
    diagnostics: Vec<Diagnostic>,
    /// Maximum number of errors to collect
    max_errors: usize,
}

impl View for ErrorReporter {
    type V = ReporterView;

    closed spec fn view(&self) -> ReporterView {
        ReporterView {
            diagnostics: self.diagnostics@.map_values(|d: Diagnostic| d@),
            max_errors: self.max_errors,
        }
    }
}

impl ErrorReporter {
    /// Create a new error reporter that keeps up to 100 diagnostics.
    pub fn new() -> (r: Self)
        ensures
            r@.diagnostics == Seq::<DiagnosticView>::empty(),
            r@.max_errors == 100,
    {
        let r = ErrorReporter { diagnostics: Vec::new(), max_errors: 100 };
        assert(r@.diagnostics =~= Seq::<DiagnosticView>::empty());
        r
    }

    /// Create a new error reporter with custom max errors.
    pub fn with_max_errors(max_errors: usize) -> (r: Self)
        ensures
            r@.diagnostics == Seq::<DiagnosticView>::empty(),
            r@.max_errors == max_errors,
    {
        let r = ErrorReporter { diagnostics: Vec::new(), max_errors };
        assert(r@.diagnostics =~= Seq::<DiagnosticView>::empty());
        r
    }

    /// Add a diagnostic; it is dropped when the reporter already holds
    /// `max_errors` diagnostics.
    pub fn add_diagnostic(&mut self, diagnostic: Diagnostic)
        ensures
            final(self)@.max_errors == old(self)@.max_errors,
            final(self)@.diagnostics == if old(self)@.diagnostics.len() < old(self)@.max_errors {
                old(self)@.diagnostics.push(diagnostic@)
            } else {
                old(self)@.diagnostics
            },
            old(self)@.diagnostics.len() <= old(self)@.max_errors
                ==> final(self)@.diagnostics.len() <= final(self)@.max_errors,
    {
        if self.diagnostics.len() < self.max_errors {
            self.diagnostics.push(diagnostic);
            assert(self@.diagnostics =~= old(self)@.diagnostics.push(diagnostic@));
        }
    }

    /// Add an error, as the diagnostic it converts to.
    pub fn add_error(&mut self, error: OvieError)
        ensures
            final(self)@.max_errors == old(self)@.max_errors,
            final(self)@.diagnostics == if old(self)@.diagnostics.len() < old(self)@.max_errors {
                old(self)@.diagnostics.push(diagnostic_of(error@))
            } else {
                old(self)@.diagnostics
            },
    {
        self.add_diagnostic(error.into_diagnostic());
    }

    /// Get all diagnostics.
    pub fn diagnostics(&self) -> (r: &[Diagnostic])
        ensures
            r@.map_values(|d: Diagnostic| d@) == self@.diagnostics,
    {
        self.diagnostics.as_slice()
    }

    /// Number of diagnostics of one severity.
    fn count_of(&self, sev: ErrorSeverity) -> (r: usize)
        ensures
            r == count_severity(self@.diagnostics, sev),
    {
        let ghost ds = self@.diagnostics;
        let mut n: usize = 0;
        let mut i: usize = 0;
        while i < self.diagnostics.len()
            invariant
                i <= self.diagnostics@.len(),
                ds == self@.diagnostics,
                n == count_severity(ds.take(i as int), sev),
                n <= i,
            decreases self.diagnostics@.len() - i,
        {
            assert(ds.take(i + 1).drop_last() =~= ds.take(i as int));
            if self.diagnostics[i].severity == sev {
                n = n + 1;
            }
            i = i + 1;
        }
        assert(ds.take(i as int) =~= ds);
        n
    }

    /// Get error count (diagnostics of severity Error).
    pub fn error_count(&self) -> (r: usize)
        ensures
            r == count_severity(self@.diagnostics, ErrorSeverity::Error),
    {
        self.count_of(ErrorSeverity::Error)
    }

    /// Get warning count (diagnostics of severity Warning).
    pub fn warning_count(&self) -> (r: usize)
        ensures
            r == count_severity(self@.diagnostics, ErrorSeverity::Warning),
    {
        self.count_of(ErrorSeverity::Warning)
    }

    /// Check if there are any errors.
    pub fn has_errors(&self) -> (r: bool)
        ensures
            r == (count_severity(self@.diagnostics, ErrorSeverity::Error) > 0),
    {
        self.error_count() > 0
    }

    /// Clear all diagnostics.
    pub fn clear(&mut self)
        ensures
            final(self)@.diagnostics == Seq::<DiagnosticView>::empty(),
            final(self)@.max_errors == old(self)@.max_errors,
    {
        self.diagnostics.clear();
        assert(self@.diagnostics =~= Seq::<DiagnosticView>::empty());
    }

    /// Generate a human-readable error report.
    pub fn to_human_readable(&self) -> (r: String)
        ensures
            r@ == diagnostics_report(self@.diagnostics)
                + abort_report(count_severity(self@.diagnostics, ErrorSeverity::Error)),
    {
        let ghost ds = self@.diagnostics;
        let mut output = String::new();
        let mut i: usize = 0;
        while i < self.diagnostics.len()
            invariant
                i <= self.diagnostics@.len(),
                ds == self@.diagnostics,
                output@ == diagnostics_report(ds.take(i as int)),
            decreases self.diagnostics@.len() - i,
        {
            assert(ds.take(i + 1).drop_last() =~= ds.take(i as int));
            push_diagnostic_report(&mut output, &self.diagnostics[i]);
            i = i + 1;
        }
        assert(ds.take(i as int) =~= ds);
        let n = self.error_count();
        if n > 0 {
            append(&mut output, "error: aborting due to ");
            push_decimal(&mut output, n as u64);
            append(&mut output, " previous error");
            if n != 1 {
                append(&mut output, "s");
            }
            append(&mut output, "\n");
        }
        proof {
            if n == 0 {
                assert(output@ =~= diagnostics_report(ds) + abort_report(n as nat));
            } else if n == 1 {
                assert(output@ =~= diagnostics_report(ds) + abort_report(n as nat));
            } else {
                assert(output@ =~= diagnostics_report(ds) + abort_report(n as nat));
            }
        }
        output
    }
}

/// Appends the location line of a report.
fn push_location_report(out: &mut String, p: &SourcePosition)
    ensures
        final(out)@ == old(out)@ + location_report(p@),
{
    match &p.file {
        Some(f) => {
            append(out, "  --> ");
            append(out, f.as_str());
            append(out, ":");
            push_decimal(out, p.line as u64);
            append(out, ":");
            push_decimal(out, p.column as u64);
            append(out, "\n");
        },
        None => {
            append(out, "  --> line ");
            push_decimal(out, p.line as u64);
            append(out, ", column ");
            push_decimal(out, p.column as u64);
            append(out, "\n");
        },
    }
    assert(final(out)@ =~= old(out)@ + location_report(p@));
}

/// Appends the `help:` lines of a list of suggestions.
fn push_suggestions_report(out: &mut String, v: &Vec<ErrorSuggestion>)
    ensures
        final(out)@ == old(out)@ + suggestions_report(suggestion_views(v@)),
{
    let ghost ss = suggestion_views(v@);
    let ghost start = out@;
    let mut i: usize = 0;
    while i < v.len()
        invariant
            i <= v@.len(),
            ss == suggestion_views(v@),
            out@ == start + suggestions_report(ss.take(i as int)),
        decreases v@.len() - i,
    {
        assert(ss.take(i + 1).drop_last() =~= ss.take(i as int));
        append(out, "  help: ");
        append(out, v[i].message.as_str());
        append(out, "\n");
        i = i + 1;
        assert(out@ =~= start + suggestions_report(ss.take(i as int)));
    }
    assert(ss.take(i as int) =~= ss);
}

/// Appends the report block of one diagnostic.
fn push_diagnostic_report(out: &mut String, d: &Diagnostic)
    ensures
        final(out)@ == old(out)@ + diagnostic_report(d@),
{
    append(out, d.severity.as_str());
    append(out, ": ");
    append(out, d.message.as_str());
    append(out, " [");
    append(out, d.code.as_str());
    append(out, "]\n");
    push_location_report(out, &d.location);
    push_suggestions_report(out, &d.suggestions);
    match &d.help_url {
        Some(u) => {
            append(out, "  For more information, see: ");
            append(out, u.as_str());
            append(out, "\n");
        },
        None => {},
    }
    append(out, "\n");
    assert(final(out)@ =~= old(out)@ + diagnostic_report(d@));
}

impl Default for ErrorReporter {
    fn default() -> (r: Self)
        ensures
            r@.diagnostics == Seq::<DiagnosticView>::empty(),
            r@.max_errors == 100,
    {
        ErrorReporter::new()
    }
}


/// An error that carries a position becomes a diagnostic located there
/// (line `l`, column `c`), with its message, its code and its category: a
/// lexical error `E0001` and a parse error `E0002` of the syntax category, a
/// semantic error `E0005` of the semantic category; an error without a
/// position is located at line 1, column 1; and a diagnostic stays as it is.
pub proof fn law_diagnostic_location(l: usize, c: usize, m: Seq<char>, e: ErrorView)
    ensures
        diagnostic_of(ErrorView::LexError(l, c, m)).location.line == l,
        diagnostic_of(ErrorView::LexError(l, c, m)).location.column == c,
        diagnostic_of(ErrorView::LexError(l, c, m)).message == m,
        diagnostic_of(ErrorView::LexError(l, c, m)).code == "E0001"@,
        diagnostic_of(ErrorView::LexError(l, c, m)).category == ErrorCategory::Syntax,
        diagnostic_of(ErrorView::ParseError(l, c, m)).location.line == l,
        diagnostic_of(ErrorView::ParseError(l, c, m)).location.column == c,
        diagnostic_of(ErrorView::ParseError(l, c, m)).message == m,
        diagnostic_of(ErrorView::ParseError(l, c, m)).code == "E0002"@,
        diagnostic_of(ErrorView::ParseError(l, c, m)).category == ErrorCategory::Syntax,
        diagnostic_of(ErrorView::SemanticError(l, c, m)).location.line == l,
        diagnostic_of(ErrorView::SemanticError(l, c, m)).location.column == c,
        diagnostic_of(ErrorView::SemanticError(l, c, m)).message == m,
        diagnostic_of(ErrorView::SemanticError(l, c, m)).code == "E0005"@,
        diagnostic_of(ErrorView::SemanticError(l, c, m)).category == ErrorCategory::Semantic,
        e is RuntimeError || e is IoError || e is IrError || e is CodegenError || e is Generic || e is HardwareError
            || e is CompileError ==> diagnostic_of(e).location.line == 1 && diagnostic_of(e).location.column == 1,
        e is Diagnostic ==> diagnostic_of(e) == e->Diagnostic_0,
{
}


/// The report of a positioned error names its line, then its column:
/// `  --> line <l>, column <c>`.
pub proof fn law_report_names_line_then_column(l: usize, c: usize, m: Seq<char>)
    ensures
        location_report(diagnostic_of(ErrorView::SemanticError(l, c, m)).location) == "  --> line "@ + decimal(
            l as nat,
        ) + ", column "@ + decimal(c as nat) + "\n"@,
        location_report(diagnostic_of(ErrorView::LexError(l, c, m)).location) == "  --> line "@ + decimal(l as nat)
            + ", column "@ + decimal(c as nat) + "\n"@,
        location_report(diagnostic_of(ErrorView::ParseError(l, c, m)).location) == "  --> line "@ + decimal(l as nat)
            + ", column "@ + decimal(c as nat) + "\n"@,
{
}

} // verus!
