use vstd::prelude::*;
use crate::text::{chars_of, chars_eq_str, to_uppercase, spec_to_uppercase};

verus! {

/// A position in the source text: 1-based line and column.
#[derive(Debug, Clone, Copy, PartialEq, Eq, Structural)]
pub struct SourcePos {
    pub line: usize,
    pub column: usize,
}

/// The codes of the semantic errors.
#[derive(Debug, Clone, Copy, PartialEq, Eq, Structural)]
pub enum ErrorCode {
    MainMustReturnInt,
    NonVoidMustReturn,
    DuplicateFunction,
    DuplicateParameter,
    UndeclaredVariable,
    AssignmentTypeMismatch,
    ReturnTypeMismatch,
    ConditionMustBeBool,
    SwitchTypeMismatch,
    UndefinedFunction,
    FunctionArgCountMismatch,
    FunctionArgTypeMismatch,
    TernaryTypeMismatch,
    InvalidBinaryOperation,
    InvalidUnaryOperation,
    UnsafeNotAllowed,
}

/// Every error code, in the order in which they are listed to users.
pub open spec fn all_error_codes() -> Seq<ErrorCode> {
    seq![
        ErrorCode::MainMustReturnInt,
        ErrorCode::NonVoidMustReturn,
        ErrorCode::DuplicateFunction,
        ErrorCode::DuplicateParameter,
        ErrorCode::UndeclaredVariable,
        ErrorCode::AssignmentTypeMismatch,
        ErrorCode::ReturnTypeMismatch,
        ErrorCode::ConditionMustBeBool,
        ErrorCode::SwitchTypeMismatch,
        ErrorCode::UndefinedFunction,
        ErrorCode::FunctionArgCountMismatch,
        ErrorCode::FunctionArgTypeMismatch,
        ErrorCode::TernaryTypeMismatch,
        ErrorCode::InvalidBinaryOperation,
        ErrorCode::InvalidUnaryOperation,
        ErrorCode::UnsafeNotAllowed,
    ]
}

impl ErrorCode {

    /// The upper-case name of the code.
    pub open spec fn spec_as_str(self) -> Seq<char> {
        match self {
            ErrorCode::MainMustReturnInt => "MAIN_MUST_RETURN_INT"@,
            ErrorCode::NonVoidMustReturn => "NONVOID_MUST_RETURN"@,
            ErrorCode::DuplicateFunction => "DUPLICATE_FUNCTION"@,
            ErrorCode::DuplicateParameter => "DUPLICATE_PARAMETER"@,
            ErrorCode::UndeclaredVariable => "UNDECLARED_VARIABLE"@,
            ErrorCode::AssignmentTypeMismatch => "ASSIGNMENT_TYPE_MISMATCH"@,
            ErrorCode::ReturnTypeMismatch => "RETURN_TYPE_MISMATCH"@,
            ErrorCode::ConditionMustBeBool => "CONDITION_MUST_BE_BOOL"@,
            ErrorCode::SwitchTypeMismatch => "SWITCH_TYPE_MISMATCH"@,
            ErrorCode::UndefinedFunction => "UNDEFINED_FUNCTION"@,
            ErrorCode::FunctionArgCountMismatch => "FUNCTION_ARG_COUNT_MISMATCH"@,
            ErrorCode::FunctionArgTypeMismatch => "FUNCTION_ARG_TYPE_MISMATCH"@,
            ErrorCode::TernaryTypeMismatch => "TERNARY_TYPE_MISMATCH"@,
            ErrorCode::InvalidBinaryOperation => "INVALID_BINARY_OPERATION"@,
            ErrorCode::InvalidUnaryOperation => "INVALID_UNARY_OPERATION"@,
            ErrorCode::UnsafeNotAllowed => "UNSAFE_NOT_ALLOWED"@,
        }
    }

    /// What the code means; it may hold colour placeholders.
    pub open spec fn spec_description(self) -> Seq<char> {
        match self {
            ErrorCode::MainMustReturnInt => "Main function must have an int return type."@,
            ErrorCode::NonVoidMustReturn => "Non-void function must return a value on all control paths."@,
            ErrorCode::DuplicateFunction => "Function name already declared."@,
            ErrorCode::DuplicateParameter => "Parameter name duplicated in function signature."@,
            ErrorCode::UndeclaredVariable => "Variable used before declaration."@,
            ErrorCode::AssignmentTypeMismatch => "Type mismatch in variable assignment or initialization."@,
            ErrorCode::ReturnTypeMismatch => "Return expression type does not match function return type."@,
            ErrorCode::ConditionMustBeBool => "Conditions in if/while/for must be boolean."@,
            ErrorCode::SwitchTypeMismatch => "Switch expression and case values must share compatible type."@,
            ErrorCode::UndefinedFunction => "Function call target is not defined."@,
            ErrorCode::FunctionArgCountMismatch => "Wrong number of arguments in function call."@,
            ErrorCode::FunctionArgTypeMismatch => "Argument type does not match parameter type."@,
            ErrorCode::TernaryTypeMismatch => "Ternary branches must evaluate to the same type."@,
            ErrorCode::InvalidBinaryOperation => "Invalid operand types for binary operation."@,
            ErrorCode::InvalidUnaryOperation => "Invalid operand type for unary operation."@,
            ErrorCode::UnsafeNotAllowed => "---IMPORTANT---\n\nthis error is {MAGENTA}{UNDERLINE}NOT{RESET} emitted by the compiler yet as cpp blocks aren't implemented yet!\n\n---END IMPORTANT--- \n\nCpp blocks are not allowed without passing --unsafe."@,
        }
    }

    /// How to fix an error of this code.
    pub open spec fn spec_help(self) -> Seq<char> {
        match self {
            ErrorCode::MainMustReturnInt => "Add `return` value or change function to void; entry point must return int."@,
            ErrorCode::NonVoidMustReturn => "Ensure every control path returns a value in non-void functions."@,
            ErrorCode::DuplicateFunction => "Rename one of the functions or remove duplicates."@,
            ErrorCode::DuplicateParameter => "Use unique parameter names in function signature."@,
            ErrorCode::UndeclaredVariable => "Declare the variable before usage."@,
            ErrorCode::AssignmentTypeMismatch => "Match variable type and expression type exactly or use `var` for inference."@,
            ErrorCode::ReturnTypeMismatch => "Fix the expression in return to the declared function return type."@,
            ErrorCode::ConditionMustBeBool => "Use bool expressions (`true/false`, comparisons) in conditions."@,
            ErrorCode::SwitchTypeMismatch => "Ensure switch values all have the same type as switch expression."@,
            ErrorCode::UndefinedFunction => "Declare or import the called function before invocation."@,
            ErrorCode::FunctionArgCountMismatch => "Pass correct number of arguments to function calls."@,
            ErrorCode::FunctionArgTypeMismatch => "Pass arguments matching parameter types."@,
            ErrorCode::TernaryTypeMismatch => "Make both branches produce the same type."@,
            ErrorCode::InvalidBinaryOperation => "Use compatible operands for the specified binary operator."@,
            ErrorCode::InvalidUnaryOperation => "Use operator with matching operand type."@,
            ErrorCode::UnsafeNotAllowed => "Pass --unsafe to the compiler on compilation."@,
        }
    }

    /// A program fragment that gives this code.
    pub open spec fn spec_example(self) -> Seq<char> {
        match self {
            ErrorCode::MainMustReturnInt => "public funct int Main() {\n    return 0;\n}"@,
            ErrorCode::NonVoidMustReturn => "public funct int f() {\n    if (true) { return 1; }\n    // missing return on else path\n}"@,
            ErrorCode::DuplicateFunction => "public funct int foo() {}\npublic funct int foo() {}"@,
            ErrorCode::DuplicateParameter => "public funct int f(int a, int a) {}"@,
            ErrorCode::UndeclaredVariable => "public funct int f() { return x; }"@,
            ErrorCode::AssignmentTypeMismatch => "int x = true;"@,
            ErrorCode::ReturnTypeMismatch => "public funct int f() { return true; }"@,
            ErrorCode::ConditionMustBeBool => "if (42) {}"@,
            ErrorCode::SwitchTypeMismatch => "switch (1) { case 'a': break; }"@,
            ErrorCode::UndefinedFunction => "x = foo(); // no foo defined"@,
            ErrorCode::FunctionArgCountMismatch => "public funct int f(int x) {}\nf();"@,
            ErrorCode::FunctionArgTypeMismatch => "public funct int f(int x) {}\nf(true);"@,
            ErrorCode::TernaryTypeMismatch => "true ? 1 : 'a'"@,
            ErrorCode::InvalidBinaryOperation => "1 + true"@,
            ErrorCode::InvalidUnaryOperation => "!1"@,
            ErrorCode::UnsafeNotAllowed => "cpp {std::cout << \"hello!\" << std::endl;}"@,
        }
    }

    /// The upper-case name of the code.
    pub fn as_str(&self) -> (r: &'static str)
        ensures
            r@ == self.spec_as_str(),
    {
        match self {
            ErrorCode::MainMustReturnInt => "MAIN_MUST_RETURN_INT",
            ErrorCode::NonVoidMustReturn => "NONVOID_MUST_RETURN",
            ErrorCode::DuplicateFunction => "DUPLICATE_FUNCTION",
            ErrorCode::DuplicateParameter => "DUPLICATE_PARAMETER",
            ErrorCode::UndeclaredVariable => "UNDECLARED_VARIABLE",
            ErrorCode::AssignmentTypeMismatch => "ASSIGNMENT_TYPE_MISMATCH",
            ErrorCode::ReturnTypeMismatch => "RETURN_TYPE_MISMATCH",
            ErrorCode::ConditionMustBeBool => "CONDITION_MUST_BE_BOOL",
            ErrorCode::SwitchTypeMismatch => "SWITCH_TYPE_MISMATCH",
            ErrorCode::UndefinedFunction => "UNDEFINED_FUNCTION",
            ErrorCode::FunctionArgCountMismatch => "FUNCTION_ARG_COUNT_MISMATCH",
            ErrorCode::FunctionArgTypeMismatch => "FUNCTION_ARG_TYPE_MISMATCH",
            ErrorCode::TernaryTypeMismatch => "TERNARY_TYPE_MISMATCH",
            ErrorCode::InvalidBinaryOperation => "INVALID_BINARY_OPERATION",
            ErrorCode::InvalidUnaryOperation => "INVALID_UNARY_OPERATION",
            ErrorCode::UnsafeNotAllowed => "UNSAFE_NOT_ALLOWED",
        }
    }

    /// What the code means; it may hold colour placeholders.
    pub fn description(&self) -> (r: &'static str)
        ensures
            r@ == self.spec_description(),
    {
        match self {
            ErrorCode::MainMustReturnInt => "Main function must have an int return type.",
            ErrorCode::NonVoidMustReturn => "Non-void function must return a value on all control paths.",
            ErrorCode::DuplicateFunction => "Function name already declared.",
            ErrorCode::DuplicateParameter => "Parameter name duplicated in function signature.",
            ErrorCode::UndeclaredVariable => "Variable used before declaration.",
            ErrorCode::AssignmentTypeMismatch => "Type mismatch in variable assignment or initialization.",
            ErrorCode::ReturnTypeMismatch => "Return expression type does not match function return type.",
            ErrorCode::ConditionMustBeBool => "Conditions in if/while/for must be boolean.",
            ErrorCode::SwitchTypeMismatch => "Switch expression and case values must share compatible type.",
            ErrorCode::UndefinedFunction => "Function call target is not defined.",
            ErrorCode::FunctionArgCountMismatch => "Wrong number of arguments in function call.",
            ErrorCode::FunctionArgTypeMismatch => "Argument type does not match parameter type.",
            ErrorCode::TernaryTypeMismatch => "Ternary branches must evaluate to the same type.",
            ErrorCode::InvalidBinaryOperation => "Invalid operand types for binary operation.",
            ErrorCode::InvalidUnaryOperation => "Invalid operand type for unary operation.",
            ErrorCode::UnsafeNotAllowed => "---IMPORTANT---\n\nthis error is {MAGENTA}{UNDERLINE}NOT{RESET} emitted by the compiler yet as cpp blocks aren't implemented yet!\n\n---END IMPORTANT--- \n\nCpp blocks are not allowed without passing --unsafe.",
        }
    }

    /// How to fix an error of this code.
    pub fn help(&self) -> (r: &'static str)
        ensures
            r@ == self.spec_help(),
    {
        match self {
            ErrorCode::MainMustReturnInt => "Add `return` value or change function to void; entry point must return int.",
            ErrorCode::NonVoidMustReturn => "Ensure every control path returns a value in non-void functions.",
            ErrorCode::DuplicateFunction => "Rename one of the functions or remove duplicates.",
            ErrorCode::DuplicateParameter => "Use unique parameter names in function signature.",
            ErrorCode::UndeclaredVariable => "Declare the variable before usage.",
            ErrorCode::AssignmentTypeMismatch => "Match variable type and expression type exactly or use `var` for inference.",
            ErrorCode::ReturnTypeMismatch => "Fix the expression in return to the declared function return type.",
            ErrorCode::ConditionMustBeBool => "Use bool expressions (`true/false`, comparisons) in conditions.",
            ErrorCode::SwitchTypeMismatch => "Ensure switch values all have the same type as switch expression.",
            ErrorCode::UndefinedFunction => "Declare or import the called function before invocation.",
            ErrorCode::FunctionArgCountMismatch => "Pass correct number of arguments to function calls.",
            ErrorCode::FunctionArgTypeMismatch => "Pass arguments matching parameter types.",
            ErrorCode::TernaryTypeMismatch => "Make both branches produce the same type.",
            ErrorCode::InvalidBinaryOperation => "Use compatible operands for the specified binary operator.",
            ErrorCode::InvalidUnaryOperation => "Use operator with matching operand type.",
            ErrorCode::UnsafeNotAllowed => "Pass --unsafe to the compiler on compilation.",
        }
    }

    /// A program fragment that gives this code.
    pub fn example(&self) -> (r: &'static str)
        ensures
            r@ == self.spec_example(),
    {
        match self {
            ErrorCode::MainMustReturnInt => "public funct int Main() {\n    return 0;\n}",
            ErrorCode::NonVoidMustReturn => "public funct int f() {\n    if (true) { return 1; }\n    // missing return on else path\n}",
            ErrorCode::DuplicateFunction => "public funct int foo() {}\npublic funct int foo() {}",
            ErrorCode::DuplicateParameter => "public funct int f(int a, int a) {}",
            ErrorCode::UndeclaredVariable => "public funct int f() { return x; }",
            ErrorCode::AssignmentTypeMismatch => "int x = true;",
            ErrorCode::ReturnTypeMismatch => "public funct int f() { return true; }",
            ErrorCode::ConditionMustBeBool => "if (42) {}",
            ErrorCode::SwitchTypeMismatch => "switch (1) { case 'a': break; }",
            ErrorCode::UndefinedFunction => "x = foo(); // no foo defined",
            ErrorCode::FunctionArgCountMismatch => "public funct int f(int x) {}\nf();",
            ErrorCode::FunctionArgTypeMismatch => "public funct int f(int x) {}\nf(true);",
            ErrorCode::TernaryTypeMismatch => "true ? 1 : 'a'",
            ErrorCode::InvalidBinaryOperation => "1 + true",
            ErrorCode::InvalidUnaryOperation => "!1",
            ErrorCode::UnsafeNotAllowed => "cpp {std::cout << \"hello!\" << std::endl;}",
        }
    }

    /// The code whose name is exactly `s`, if any.
    pub open spec fn spec_from_upper(s: Seq<char>) -> Option<ErrorCode> {
        if s == "MAIN_MUST_RETURN_INT"@ {
            Some(ErrorCode::MainMustReturnInt)
        } else if s == "NONVOID_MUST_RETURN"@ {
            Some(ErrorCode::NonVoidMustReturn)
        } else if s == "DUPLICATE_FUNCTION"@ {
            Some(ErrorCode::DuplicateFunction)
        } else if s == "DUPLICATE_PARAMETER"@ {
            Some(ErrorCode::DuplicateParameter)
        } else if s == "UNDECLARED_VARIABLE"@ {
            Some(ErrorCode::UndeclaredVariable)
        } else if s == "ASSIGNMENT_TYPE_MISMATCH"@ {
            Some(ErrorCode::AssignmentTypeMismatch)
        } else if s == "RETURN_TYPE_MISMATCH"@ {
            Some(ErrorCode::ReturnTypeMismatch)
        } else if s == "CONDITION_MUST_BE_BOOL"@ {
            Some(ErrorCode::ConditionMustBeBool)
        } else if s == "SWITCH_TYPE_MISMATCH"@ {
            Some(ErrorCode::SwitchTypeMismatch)
        } else if s == "UNDEFINED_FUNCTION"@ {
            Some(ErrorCode::UndefinedFunction)
        } else if s == "FUNCTION_ARG_COUNT_MISMATCH"@ {
            Some(ErrorCode::FunctionArgCountMismatch)
        } else if s == "FUNCTION_ARG_TYPE_MISMATCH"@ {
            Some(ErrorCode::FunctionArgTypeMismatch)
        } else if s == "TERNARY_TYPE_MISMATCH"@ {
            Some(ErrorCode::TernaryTypeMismatch)
        } else if s == "INVALID_BINARY_OPERATION"@ {
            Some(ErrorCode::InvalidBinaryOperation)
        } else if s == "INVALID_UNARY_OPERATION"@ {
            Some(ErrorCode::InvalidUnaryOperation)
        } else if s == "UNSAFE_NOT_ALLOWED"@ {
            Some(ErrorCode::UnsafeNotAllowed)
        } else {
            None
        }
    }

    /// The code whose name is exactly `upper`, if any.
    pub fn from_upper(upper: &str) -> (r: Option<ErrorCode>)
        ensures
            r == Self::spec_from_upper(upper@),
    {
        let v = chars_of(upper);
        if chars_eq_str(&v, "MAIN_MUST_RETURN_INT") {
            return Some(ErrorCode::MainMustReturnInt);
        }
        if chars_eq_str(&v, "NONVOID_MUST_RETURN") {
            return Some(ErrorCode::NonVoidMustReturn);
        }
        if chars_eq_str(&v, "DUPLICATE_FUNCTION") {
            return Some(ErrorCode::DuplicateFunction);
        }
        if chars_eq_str(&v, "DUPLICATE_PARAMETER") {
            return Some(ErrorCode::DuplicateParameter);
        }
        if chars_eq_str(&v, "UNDECLARED_VARIABLE") {
            return Some(ErrorCode::UndeclaredVariable);
        }
        if chars_eq_str(&v, "ASSIGNMENT_TYPE_MISMATCH") {
            return Some(ErrorCode::AssignmentTypeMismatch);
        }
        if chars_eq_str(&v, "RETURN_TYPE_MISMATCH") {
            return Some(ErrorCode::ReturnTypeMismatch);
        }
        if chars_eq_str(&v, "CONDITION_MUST_BE_BOOL") {
            return Some(ErrorCode::ConditionMustBeBool);
        }
        if chars_eq_str(&v, "SWITCH_TYPE_MISMATCH") {
            return Some(ErrorCode::SwitchTypeMismatch);
        }
        if chars_eq_str(&v, "UNDEFINED_FUNCTION") {
            return Some(ErrorCode::UndefinedFunction);
        }
        if chars_eq_str(&v, "FUNCTION_ARG_COUNT_MISMATCH") {
            return Some(ErrorCode::FunctionArgCountMismatch);
        }
        if chars_eq_str(&v, "FUNCTION_ARG_TYPE_MISMATCH") {
            return Some(ErrorCode::FunctionArgTypeMismatch);
        }
        if chars_eq_str(&v, "TERNARY_TYPE_MISMATCH") {
            return Some(ErrorCode::TernaryTypeMismatch);
        }
        if chars_eq_str(&v, "INVALID_BINARY_OPERATION") {
            return Some(ErrorCode::InvalidBinaryOperation);
        }
        if chars_eq_str(&v, "INVALID_UNARY_OPERATION") {
            return Some(ErrorCode::InvalidUnaryOperation);
        }
        if chars_eq_str(&v, "UNSAFE_NOT_ALLOWED") {
            return Some(ErrorCode::UnsafeNotAllowed);
        }
        None
    }

    /// The code whose name is `value` once upper-cased (std's `str::to_uppercase`).
    pub fn from_str(value: &str) -> (r: Option<ErrorCode>)
        ensures
            r == Self::spec_from_upper(spec_to_uppercase(value@)),
    {
        let upper = to_uppercase(value);
        Self::from_upper(upper.as_str())
    }
}

/// Reading back the name of a code gives that code: `from_upper(code.as_str())` is `Some(code)`.
pub proof fn lemma_code_name_roundtrip(code: ErrorCode)
    ensures
        ErrorCode::spec_from_upper(code.spec_as_str()) == Some(code),
{
    reveal_strlit("MAIN_MUST_RETURN_INT");
    reveal_strlit("NONVOID_MUST_RETURN");
    reveal_strlit("DUPLICATE_FUNCTION");
    reveal_strlit("DUPLICATE_PARAMETER");
    reveal_strlit("UNDECLARED_VARIABLE");
    reveal_strlit("ASSIGNMENT_TYPE_MISMATCH");
    reveal_strlit("RETURN_TYPE_MISMATCH");
    reveal_strlit("CONDITION_MUST_BE_BOOL");
    reveal_strlit("SWITCH_TYPE_MISMATCH");
    reveal_strlit("UNDEFINED_FUNCTION");
    reveal_strlit("FUNCTION_ARG_COUNT_MISMATCH");
    reveal_strlit("FUNCTION_ARG_TYPE_MISMATCH");
    reveal_strlit("TERNARY_TYPE_MISMATCH");
    reveal_strlit("INVALID_BINARY_OPERATION");
    reveal_strlit("INVALID_UNARY_OPERATION");
    reveal_strlit("UNSAFE_NOT_ALLOWED");
    match code {
        ErrorCode::MainMustReturnInt => {

        },
        ErrorCode::NonVoidMustReturn => {
            assert("NONVOID_MUST_RETURN"@.len() != "MAIN_MUST_RETURN_INT"@.len());
        },
        ErrorCode::DuplicateFunction => {
            assert("DUPLICATE_FUNCTION"@.len() != "MAIN_MUST_RETURN_INT"@.len());
            assert("DUPLICATE_FUNCTION"@.len() != "NONVOID_MUST_RETURN"@.len());
        },
        ErrorCode::DuplicateParameter => {
            assert("DUPLICATE_PARAMETER"@.len() != "MAIN_MUST_RETURN_INT"@.len());
            assert("DUPLICATE_PARAMETER"@[0] != "NONVOID_MUST_RETURN"@[0]);
            assert("DUPLICATE_PARAMETER"@.len() != "DUPLICATE_FUNCTION"@.len());
        },
        ErrorCode::UndeclaredVariable => {
            assert("UNDECLARED_VARIABLE"@.len() != "MAIN_MUST_RETURN_INT"@.len());
            assert("UNDECLARED_VARIABLE"@[0] != "NONVOID_MUST_RETURN"@[0]);
            assert("UNDECLARED_VARIABLE"@.len() != "DUPLICATE_FUNCTION"@.len());
            assert("UNDECLARED_VARIABLE"@[0] != "DUPLICATE_PARAMETER"@[0]);
        },
        ErrorCode::AssignmentTypeMismatch => {
            assert("ASSIGNMENT_TYPE_MISMATCH"@.len() != "MAIN_MUST_RETURN_INT"@.len());
            assert("ASSIGNMENT_TYPE_MISMATCH"@.len() != "NONVOID_MUST_RETURN"@.len());
            assert("ASSIGNMENT_TYPE_MISMATCH"@.len() != "DUPLICATE_FUNCTION"@.len());
            assert("ASSIGNMENT_TYPE_MISMATCH"@.len() != "DUPLICATE_PARAMETER"@.len());
            assert("ASSIGNMENT_TYPE_MISMATCH"@.len() != "UNDECLARED_VARIABLE"@.len());
        },
        ErrorCode::ReturnTypeMismatch => {
            assert("RETURN_TYPE_MISMATCH"@[0] != "MAIN_MUST_RETURN_INT"@[0]);
            assert("RETURN_TYPE_MISMATCH"@.len() != "NONVOID_MUST_RETURN"@.len());
            assert("RETURN_TYPE_MISMATCH"@.len() != "DUPLICATE_FUNCTION"@.len());
            assert("RETURN_TYPE_MISMATCH"@.len() != "DUPLICATE_PARAMETER"@.len());
            assert("RETURN_TYPE_MISMATCH"@.len() != "UNDECLARED_VARIABLE"@.len());
            assert("RETURN_TYPE_MISMATCH"@.len() != "ASSIGNMENT_TYPE_MISMATCH"@.len());
        },
        ErrorCode::ConditionMustBeBool => {
            assert("CONDITION_MUST_BE_BOOL"@.len() != "MAIN_MUST_RETURN_INT"@.len());
            assert("CONDITION_MUST_BE_BOOL"@.len() != "NONVOID_MUST_RETURN"@.len());
            assert("CONDITION_MUST_BE_BOOL"@.len() != "DUPLICATE_FUNCTION"@.len());
            assert("CONDITION_MUST_BE_BOOL"@.len() != "DUPLICATE_PARAMETER"@.len());
            assert("CONDITION_MUST_BE_BOOL"@.len() != "UNDECLARED_VARIABLE"@.len());
            assert("CONDITION_MUST_BE_BOOL"@.len() != "ASSIGNMENT_TYPE_MISMATCH"@.len());
            assert("CONDITION_MUST_BE_BOOL"@.len() != "RETURN_TYPE_MISMATCH"@.len());
        },
        ErrorCode::SwitchTypeMismatch => {
            assert("SWITCH_TYPE_MISMATCH"@[0] != "MAIN_MUST_RETURN_INT"@[0]);
            assert("SWITCH_TYPE_MISMATCH"@.len() != "NONVOID_MUST_RETURN"@.len());
            assert("SWITCH_TYPE_MISMATCH"@.len() != "DUPLICATE_FUNCTION"@.len());
            assert("SWITCH_TYPE_MISMATCH"@.len() != "DUPLICATE_PARAMETER"@.len());
            assert("SWITCH_TYPE_MISMATCH"@.len() != "UNDECLARED_VARIABLE"@.len());
            assert("SWITCH_TYPE_MISMATCH"@.len() != "ASSIGNMENT_TYPE_MISMATCH"@.len());
            assert("SWITCH_TYPE_MISMATCH"@[0] != "RETURN_TYPE_MISMATCH"@[0]);
            assert("SWITCH_TYPE_MISMATCH"@.len() != "CONDITION_MUST_BE_BOOL"@.len());
        },
        ErrorCode::UndefinedFunction => {
            assert("UNDEFINED_FUNCTION"@.len() != "MAIN_MUST_RETURN_INT"@.len());
            assert("UNDEFINED_FUNCTION"@.len() != "NONVOID_MUST_RETURN"@.len());
            assert("UNDEFINED_FUNCTION"@[0] != "DUPLICATE_FUNCTION"@[0]);
            assert("UNDEFINED_FUNCTION"@.len() != "DUPLICATE_PARAMETER"@.len());
            assert("UNDEFINED_FUNCTION"@.len() != "UNDECLARED_VARIABLE"@.len());
            assert("UNDEFINED_FUNCTION"@.len() != "ASSIGNMENT_TYPE_MISMATCH"@.len());
            assert("UNDEFINED_FUNCTION"@.len() != "RETURN_TYPE_MISMATCH"@.len());
            assert("UNDEFINED_FUNCTION"@.len() != "CONDITION_MUST_BE_BOOL"@.len());
            assert("UNDEFINED_FUNCTION"@.len() != "SWITCH_TYPE_MISMATCH"@.len());
        },
        ErrorCode::FunctionArgCountMismatch => {
            assert("FUNCTION_ARG_COUNT_MISMATCH"@.len() != "MAIN_MUST_RETURN_INT"@.len());
            assert("FUNCTION_ARG_COUNT_MISMATCH"@.len() != "NONVOID_MUST_RETURN"@.len());
            assert("FUNCTION_ARG_COUNT_MISMATCH"@.len() != "DUPLICATE_FUNCTION"@.len());
            assert("FUNCTION_ARG_COUNT_MISMATCH"@.len() != "DUPLICATE_PARAMETER"@.len());
            assert("FUNCTION_ARG_COUNT_MISMATCH"@.len() != "UNDECLARED_VARIABLE"@.len());
            assert("FUNCTION_ARG_COUNT_MISMATCH"@.len() != "ASSIGNMENT_TYPE_MISMATCH"@.len());
            assert("FUNCTION_ARG_COUNT_MISMATCH"@.len() != "RETURN_TYPE_MISMATCH"@.len());
            assert("FUNCTION_ARG_COUNT_MISMATCH"@.len() != "CONDITION_MUST_BE_BOOL"@.len());
            assert("FUNCTION_ARG_COUNT_MISMATCH"@.len() != "SWITCH_TYPE_MISMATCH"@.len());
            assert("FUNCTION_ARG_COUNT_MISMATCH"@.len() != "UNDEFINED_FUNCTION"@.len());
        },
        ErrorCode::FunctionArgTypeMismatch => {
            assert("FUNCTION_ARG_TYPE_MISMATCH"@.len() != "MAIN_MUST_RETURN_INT"@.len());
            assert("FUNCTION_ARG_TYPE_MISMATCH"@.len() != "NONVOID_MUST_RETURN"@.len());
            assert("FUNCTION_ARG_TYPE_MISMATCH"@.len() != "DUPLICATE_FUNCTION"@.len());
            assert("FUNCTION_ARG_TYPE_MISMATCH"@.len() != "DUPLICATE_PARAMETER"@.len());
            assert("FUNCTION_ARG_TYPE_MISMATCH"@.len() != "UNDECLARED_VARIABLE"@.len());
            assert("FUNCTION_ARG_TYPE_MISMATCH"@.len() != "ASSIGNMENT_TYPE_MISMATCH"@.len());
            assert("FUNCTION_ARG_TYPE_MISMATCH"@.len() != "RETURN_TYPE_MISMATCH"@.len());
            assert("FUNCTION_ARG_TYPE_MISMATCH"@.len() != "CONDITION_MUST_BE_BOOL"@.len());
            assert("FUNCTION_ARG_TYPE_MISMATCH"@.len() != "SWITCH_TYPE_MISMATCH"@.len());
            assert("FUNCTION_ARG_TYPE_MISMATCH"@.len() != "UNDEFINED_FUNCTION"@.len());
            assert("FUNCTION_ARG_TYPE_MISMATCH"@.len() != "FUNCTION_ARG_COUNT_MISMATCH"@.len());
        },
        ErrorCode::TernaryTypeMismatch => {
            assert("TERNARY_TYPE_MISMATCH"@.len() != "MAIN_MUST_RETURN_INT"@.len());
            assert("TERNARY_TYPE_MISMATCH"@.len() != "NONVOID_MUST_RETURN"@.len());
            assert("TERNARY_TYPE_MISMATCH"@.len() != "DUPLICATE_FUNCTION"@.len());
            assert("TERNARY_TYPE_MISMATCH"@.len() != "DUPLICATE_PARAMETER"@.len());
            assert("TERNARY_TYPE_MISMATCH"@.len() != "UNDECLARED_VARIABLE"@.len());
            assert("TERNARY_TYPE_MISMATCH"@.len() != "ASSIGNMENT_TYPE_MISMATCH"@.len());
            assert("TERNARY_TYPE_MISMATCH"@.len() != "RETURN_TYPE_MISMATCH"@.len());
            assert("TERNARY_TYPE_MISMATCH"@.len() != "CONDITION_MUST_BE_BOOL"@.len());
            assert("TERNARY_TYPE_MISMATCH"@.len() != "SWITCH_TYPE_MISMATCH"@.len());
            assert("TERNARY_TYPE_MISMATCH"@.len() != "UNDEFINED_FUNCTION"@.len());
            assert("TERNARY_TYPE_MISMATCH"@.len() != "FUNCTION_ARG_COUNT_MISMATCH"@.len());
            assert("TERNARY_TYPE_MISMATCH"@.len() != "FUNCTION_ARG_TYPE_MISMATCH"@.len());
        },
        ErrorCode::InvalidBinaryOperation => {
            assert("INVALID_BINARY_OPERATION"@.len() != "MAIN_MUST_RETURN_INT"@.len());
            assert("INVALID_BINARY_OPERATION"@.len() != "NONVOID_MUST_RETURN"@.len());
            assert("INVALID_BINARY_OPERATION"@.len() != "DUPLICATE_FUNCTION"@.len());
            assert("INVALID_BINARY_OPERATION"@.len() != "DUPLICATE_PARAMETER"@.len());
            assert("INVALID_BINARY_OPERATION"@.len() != "UNDECLARED_VARIABLE"@.len());
            assert("INVALID_BINARY_OPERATION"@[0] != "ASSIGNMENT_TYPE_MISMATCH"@[0]);
            assert("INVALID_BINARY_OPERATION"@.len() != "RETURN_TYPE_MISMATCH"@.len());
            assert("INVALID_BINARY_OPERATION"@.len() != "CONDITION_MUST_BE_BOOL"@.len());
            assert("INVALID_BINARY_OPERATION"@.len() != "SWITCH_TYPE_MISMATCH"@.len());
            assert("INVALID_BINARY_OPERATION"@.len() != "UNDEFINED_FUNCTION"@.len());
            assert("INVALID_BINARY_OPERATION"@.len() != "FUNCTION_ARG_COUNT_MISMATCH"@.len());
            assert("INVALID_BINARY_OPERATION"@.len() != "FUNCTION_ARG_TYPE_MISMATCH"@.len());
            assert("INVALID_BINARY_OPERATION"@.len() != "TERNARY_TYPE_MISMATCH"@.len());
        },
        ErrorCode::InvalidUnaryOperation => {
            assert("INVALID_UNARY_OPERATION"@.len() != "MAIN_MUST_RETURN_INT"@.len());
            assert("INVALID_UNARY_OPERATION"@.len() != "NONVOID_MUST_RETURN"@.len());
            assert("INVALID_UNARY_OPERATION"@.len() != "DUPLICATE_FUNCTION"@.len());
            assert("INVALID_UNARY_OPERATION"@.len() != "DUPLICATE_PARAMETER"@.len());
            assert("INVALID_UNARY_OPERATION"@.len() != "UNDECLARED_VARIABLE"@.len());
            assert("INVALID_UNARY_OPERATION"@.len() != "ASSIGNMENT_TYPE_MISMATCH"@.len());
            assert("INVALID_UNARY_OPERATION"@.len() != "RETURN_TYPE_MISMATCH"@.len());
            assert("INVALID_UNARY_OPERATION"@.len() != "CONDITION_MUST_BE_BOOL"@.len());
            assert("INVALID_UNARY_OPERATION"@.len() != "SWITCH_TYPE_MISMATCH"@.len());
            assert("INVALID_UNARY_OPERATION"@.len() != "UNDEFINED_FUNCTION"@.len());
            assert("INVALID_UNARY_OPERATION"@.len() != "FUNCTION_ARG_COUNT_MISMATCH"@.len());
            assert("INVALID_UNARY_OPERATION"@.len() != "FUNCTION_ARG_TYPE_MISMATCH"@.len());
            assert("INVALID_UNARY_OPERATION"@.len() != "TERNARY_TYPE_MISMATCH"@.len());
            assert("INVALID_UNARY_OPERATION"@.len() != "INVALID_BINARY_OPERATION"@.len());
        },
        ErrorCode::UnsafeNotAllowed => {
            assert("UNSAFE_NOT_ALLOWED"@.len() != "MAIN_MUST_RETURN_INT"@.len());
            assert("UNSAFE_NOT_ALLOWED"@.len() != "NONVOID_MUST_RETURN"@.len());
            assert("UNSAFE_NOT_ALLOWED"@[0] != "DUPLICATE_FUNCTION"@[0]);
            assert("UNSAFE_NOT_ALLOWED"@.len() != "DUPLICATE_PARAMETER"@.len());
            assert("UNSAFE_NOT_ALLOWED"@.len() != "UNDECLARED_VARIABLE"@.len());
            assert("UNSAFE_NOT_ALLOWED"@.len() != "ASSIGNMENT_TYPE_MISMATCH"@.len());
            assert("UNSAFE_NOT_ALLOWED"@.len() != "RETURN_TYPE_MISMATCH"@.len());
            assert("UNSAFE_NOT_ALLOWED"@.len() != "CONDITION_MUST_BE_BOOL"@.len());
            assert("UNSAFE_NOT_ALLOWED"@.len() != "SWITCH_TYPE_MISMATCH"@.len());
            assert("UNSAFE_NOT_ALLOWED"@[2] != "UNDEFINED_FUNCTION"@[2]);
            assert("UNSAFE_NOT_ALLOWED"@.len() != "FUNCTION_ARG_COUNT_MISMATCH"@.len());
            assert("UNSAFE_NOT_ALLOWED"@.len() != "FUNCTION_ARG_TYPE_MISMATCH"@.len());
            assert("UNSAFE_NOT_ALLOWED"@.len() != "TERNARY_TYPE_MISMATCH"@.len());
            assert("UNSAFE_NOT_ALLOWED"@.len() != "INVALID_BINARY_OPERATION"@.len());
            assert("UNSAFE_NOT_ALLOWED"@.len() != "INVALID_UNARY_OPERATION"@.len());
        },
    }
}

/// An error of the semantic check: its code and a message.
#[derive(Debug)]
pub struct SemanticError {
    pub code: ErrorCode,
    pub message: String,
}

/// Model of a semantic error.
pub struct SpecSemanticError {
    pub code: ErrorCode,
    pub message: Seq<char>,
}

impl View for SemanticError {
    type V = SpecSemanticError;

    open spec fn view(&self) -> SpecSemanticError {
        SpecSemanticError { code: self.code, message: self.message@ }
    }
}

impl SemanticError {
    /// An error with code `code` and message `message`.
    pub fn new(code: ErrorCode, message: String) -> (r: Self)
        ensures
            r.code == code,
            r.message@ == message@,
    {
        Self { code, message }
    }
}

/// An error of the compiler, with the source position it points at and, for semantic
/// errors, their code.
#[derive(Debug)]
pub struct CompileError {
    pub message: String,
    pub pos: SourcePos,
    pub code: Option<ErrorCode>,
}

/// Model of a compile error.
pub struct SpecCompileError {
    pub message: Seq<char>,
    pub line: usize,
    pub column: usize,
    pub code: Option<ErrorCode>,
}

impl View for CompileError {
    type V = SpecCompileError;

    open spec fn view(&self) -> SpecCompileError {
        SpecCompileError {
            message: self.message@,
            line: self.pos.line,
            column: self.pos.column,
            code: self.code,
        }
    }
}

/// A compile error without a code.
pub open spec fn spec_error_at(message: Seq<char>, line: usize, column: usize) -> SpecCompileError {
    SpecCompileError { message, line, column, code: None }
}

impl CompileError {
    /// An error without a code, at `line` and `column`.
    pub fn new(message: String, line: usize, column: usize) -> (r: Self)
        ensures
            r@ == spec_error_at(message@, line, column),
    {
        Self { message, pos: SourcePos { line, column }, code: None }
    }

    /// An error with code `code`, at `line` and `column`.
    pub fn with_code(code: ErrorCode, message: String, line: usize, column: usize) -> (r: Self)
        ensures
            r@ == (SpecCompileError { message: message@, line, column, code: Some(code) }),
    {
        Self { message, pos: SourcePos { line, column }, code: Some(code) }
    }
}

} // verus!
