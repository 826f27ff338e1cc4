use vstd::prelude::*;
use vstd::string::StringExecFns;
use crate::text::str_eq;

verus! {

/// Why running a code block gave no output.
#[derive(Debug)]
pub enum ExecutionError {
    /// The program could not be started or waited for; the system's message.
    Execute(String),
    /// A standard stream of the program could not be read or written.
    InputOutput,
    /// No file could be made to compile into.
    CreateTempFile(String),
    /// The program exited with a failure; what it wrote to its error stream.
    Compile(String),
    /// No way to run code of this language.
    UnknownLanguage(String),
}

pub open spec fn execute_prefix() -> Seq<char> {
    "Execution error: "@
}

pub open spec fn input_output_message() -> Seq<char> {
    "Couldn't read Std I/O"@
}

pub open spec fn temp_file_prefix() -> Seq<char> {
    "Creating build file: "@
}

pub open spec fn compile_prefix() -> Seq<char> {
    "Compile error: "@
}

pub open spec fn unknown_language_prefix() -> Seq<char> {
    "Don't know how to compile "@
}

impl ExecutionError {
    pub open spec fn spec_message(&self) -> Seq<char> {
        match self {
            ExecutionError::Execute(m) => execute_prefix() + m@,
            ExecutionError::InputOutput => input_output_message(),
            ExecutionError::CreateTempFile(m) => temp_file_prefix() + m@,
            ExecutionError::Compile(m) => compile_prefix() + m@,
            ExecutionError::UnknownLanguage(l) => unknown_language_prefix() + l@,
        }
    }

    /// A line for a person to read.
    pub fn message(&self) -> (s: String)
        ensures
            s@ == self.spec_message(),
    {
        match self {
            ExecutionError::Execute(m) => String::from_str("Execution error: ").concat(m.as_str()),
            ExecutionError::InputOutput => String::from_str("Couldn't read Std I/O"),
            ExecutionError::CreateTempFile(m) => String::from_str("Creating build file: ").concat(m.as_str()),
            ExecutionError::Compile(m) => String::from_str("Compile error: ").concat(m.as_str()),
            ExecutionError::UnknownLanguage(l) => String::from_str("Don't know how to compile ").concat(l.as_str()),
        }
    }
}

/// A code block in a language that can be run, with its source.
#[derive(Debug)]
pub enum ExecutableCode {
    Bash(String),
    Python(String),
    Ruby(String),
    Perl(String),
    Rust(String),
    Unknown(String, String),
}

/// How to run a code block: pipe it into an interpreter, or compile it first.
#[derive(Debug)]
pub enum Invocation {
    /// Run `program` with `args`, the code on its standard input.
    Interpret { program: String, args: Vec<String> },
    /// Compile with `rustc` from standard input, then run what it built.
    CompileRust,
}

/// What a finished program left behind.
#[derive(Debug)]
pub struct CommandOutput {
    pub success: bool,
    pub stdout: String,
    pub stderr: String,
}

/// The languages a code block can be run in.
pub open spec fn is_supported_language(l: Seq<char>) -> bool {
    l == "bash"@ || l == "sh"@ || l == "python"@ || l == "ruby"@ || l == "perl"@ || l == "rust"@
}

impl ExecutableCode {
    pub fn is_supported(language: &str) -> (r: bool)
        ensures
            r == is_supported_language(language@),
    {
        str_eq(language, "bash") || str_eq(language, "sh") || str_eq(language, "python")
            || str_eq(language, "ruby") || str_eq(language, "perl") || str_eq(language, "rust")
    }

    /// Whether this is the code block for `code` tagged `language`.
    pub open spec fn made_from(&self, language: Seq<char>, code: String) -> bool {
        if language == "bash"@ || language == "sh"@ {
            *self == ExecutableCode::Bash(code)
        } else if language == "python"@ {
            *self == ExecutableCode::Python(code)
        } else if language == "ruby"@ {
            *self == ExecutableCode::Ruby(code)
        } else if language == "perl"@ {
            *self == ExecutableCode::Perl(code)
        } else if language == "rust"@ {
            *self == ExecutableCode::Rust(code)
        } else {
            self matches ExecutableCode::Unknown(l, c) && l@ == language && c == code
        }
    }

    /// The code block for a fenced block tagged `language`: one of the known
    /// interpreters, or `Unknown` keeping the tag.
    pub fn from(language: &str, code: &String) -> (r: Option<ExecutableCode>)
        ensures
            r matches Some(c) && c.made_from(language@, *code),
    {
        proof {
            reveal_strlit("bash");
            reveal_strlit("sh");
            reveal_strlit("python");
            reveal_strlit("ruby");
            reveal_strlit("perl");
            reveal_strlit("rust");
            assert("python"@ != "bash"@) by { assert("python"@.len() != "bash"@.len()); }
            assert("python"@ != "sh"@) by { assert("python"@.len() != "sh"@.len()); }
            assert("ruby"@ != "bash"@) by { assert("ruby"@[0] != "bash"@[0]); }
            assert("ruby"@ != "sh"@) by { assert("ruby"@.len() != "sh"@.len()); }
            assert("ruby"@ != "python"@) by { assert("ruby"@.len() != "python"@.len()); }
            assert("perl"@ != "bash"@) by { assert("perl"@[0] != "bash"@[0]); }
            assert("perl"@ != "sh"@) by { assert("perl"@.len() != "sh"@.len()); }
            assert("perl"@ != "python"@) by { assert("perl"@.len() != "python"@.len()); }
            assert("perl"@ != "ruby"@) by { assert("perl"@[0] != "ruby"@[0]); }
            assert("rust"@ != "bash"@) by { assert("rust"@[0] != "bash"@[0]); }
            assert("rust"@ != "sh"@) by { assert("rust"@.len() != "sh"@.len()); }
            assert("rust"@ != "python"@) by { assert("rust"@.len() != "python"@.len()); }
            assert("rust"@ != "ruby"@) by { assert("rust"@[2] != "ruby"@[2]); }
            assert("rust"@ != "perl"@) by { assert("rust"@[0] != "perl"@[0]); }
        }
        if str_eq(language, "bash") || str_eq(language, "sh") {
            Some(ExecutableCode::Bash(code.clone()))
        } else if str_eq(language, "python") {
            Some(ExecutableCode::Python(code.clone()))
        } else if str_eq(language, "ruby") {
            Some(ExecutableCode::Ruby(code.clone()))
        } else if str_eq(language, "perl") {
            Some(ExecutableCode::Perl(code.clone()))
        } else if str_eq(language, "rust") {
            Some(ExecutableCode::Rust(code.clone()))
        } else {
            Some(ExecutableCode::Unknown(language.to_owned(), code.clone()))
        }
    }

    pub open spec fn spec_code(&self) -> String {
        match self {
            ExecutableCode::Bash(c) => *c,
            ExecutableCode::Python(c) => *c,
            ExecutableCode::Ruby(c) => *c,
            ExecutableCode::Perl(c) => *c,
            ExecutableCode::Rust(c) => *c,
            ExecutableCode::Unknown(_, c) => *c,
        }
    }

    /// The source of the code block.
    pub fn code(&self) -> (c: String)
        ensures
            c == self.spec_code(),
    {
        match self {
            ExecutableCode::Bash(code) => code.clone(),
            ExecutableCode::Python(code) => code.clone(),
            ExecutableCode::Ruby(code) => code.clone(),
            ExecutableCode::Perl(code) => code.clone(),
            ExecutableCode::Rust(code) => code.clone(),
            ExecutableCode::Unknown(_language, code) => code.clone(),
        }
    }

    /// The name of the language, as a person would write it.
    pub fn language_name(&self) -> (s: String)
        ensures
            self is Bash ==> s@ == "bash"@,
            self is Python ==> s@ == "python"@,
            self is Ruby ==> s@ == "ruby"@,
            self is Perl ==> s@ == "perl"@,
            self is Rust ==> s@ == "rust"@,
            self matches ExecutableCode::Unknown(l, _) ==> s@ == "unknown: "@ + l@,
    {
        match self {
            ExecutableCode::Bash(_) => String::from_str("bash"),
            ExecutableCode::Python(_) => String::from_str("python"),
            ExecutableCode::Ruby(_) => String::from_str("ruby"),
            ExecutableCode::Perl(_) => String::from_str("perl"),
            ExecutableCode::Rust(_) => String::from_str("rust"),
            ExecutableCode::Unknown(language, _) => String::from_str("unknown: ").concat(language.as_str()),
        }
    }

    /// How the block is run: interpreters read it from standard input (`-`),
    /// Rust is compiled first; an unknown language cannot be run.
    pub fn invocation(&self) -> (r: Result<Invocation, ExecutionError>)
        ensures
            self is Bash ==> (r matches Ok(Invocation::Interpret { program, args }) && program@
                == "bash"@ && args@.len() == 1 && args@[0]@ == "-"@),
            self is Python ==> (r matches Ok(Invocation::Interpret { program, args }) && program@
                == "python3"@ && args@.len() == 1 && args@[0]@ == "-"@),
            self is Ruby ==> (r matches Ok(Invocation::Interpret { program, args }) && program@
                == "ruby"@ && args@.len() == 1 && args@[0]@ == "-"@),
            self is Perl ==> (r matches Ok(Invocation::Interpret { program, args }) && program@
                == "perl"@ && args@.len() == 1 && args@[0]@ == "-"@),
            self is Rust ==> r matches Ok(Invocation::CompileRust),
            self matches ExecutableCode::Unknown(l, _) ==> (r matches Err(
                ExecutionError::UnknownLanguage(m),
            ) && m@ == l@),
    {
        match self {
            ExecutableCode::Bash(_) => Ok(interpret("bash")),
            ExecutableCode::Python(_) => Ok(interpret("python3")),
            ExecutableCode::Ruby(_) => Ok(interpret("ruby")),
            ExecutableCode::Perl(_) => Ok(interpret("perl")),
            ExecutableCode::Rust(_) => Ok(Invocation::CompileRust),
            ExecutableCode::Unknown(language, _) => Err(
                ExecutionError::UnknownLanguage(language.clone()),
            ),
        }
    }
}

fn interpret(program: &str) -> (i: Invocation)
    ensures
        i matches Invocation::Interpret { program: p, args } && p@ == program@ && args@.len() == 1
            && args@[0]@ == "-"@,
{
    let mut args: Vec<String> = Vec::new();
    args.push(String::from_str("-"));
    Invocation::Interpret { program: String::from_str(program), args }
}

/// What a program that read the code gave: its output when it succeeded,
/// else what it wrote to its error stream.
pub fn command_outcome(output: CommandOutput) -> (r: Result<String, ExecutionError>)
    ensures
        output.success ==> r == Ok::<String, ExecutionError>(output.stdout),
        !output.success ==> r == Err::<String, ExecutionError>(ExecutionError::Compile(output.stderr)),
{
    if output.success {
        Ok(output.stdout)
    } else {
        Err(ExecutionError::Compile(output.stderr))
    }
}

pub open spec fn spec_output_text(result: Result<String, ExecutionError>) -> Seq<char> {
    match result {
        Ok(out) => out@,
        Err(ExecutionError::Compile(err)) => err@,
        Err(e) => e.spec_message(),
    }
}

/// The text shown on the slide after running a code block: the output, what
/// a failing program wrote to its error stream, or the error's message.
pub fn output_text(result: Result<String, ExecutionError>) -> (s: String)
    ensures
        s@ == spec_output_text(result),
{
    match result {
        Ok(out) => out,
        Err(ExecutionError::Compile(err)) => err,
        Err(e) => e.message(),
    }
}

} // verus!
