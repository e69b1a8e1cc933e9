//! What a finished subprocess leaves behind, as plain values, and the decoding
//! of its captured byte streams into text.

use vstd::prelude::*;
use vstd::string::*;
use vstd::utf8::*;

verus! {

/// Exit status and captured streams of a subprocess that ran to its end.
#[derive(Debug)]
pub struct CommandOutput {
    /// Whether the process exited with a success status.
    pub success: bool,
    /// Bytes written to standard output.
    pub stdout: Vec<u8>,
    /// Bytes written to standard error.
    pub stderr: Vec<u8>,
}

/// The text that lossy UTF-8 decoding makes of a byte sequence: well-formed
/// stretches decoded, malformed ones replaced by U+FFFD.
pub uninterp spec fn lossy_text(bytes: Seq<u8>) -> Seq<char>;

/// Calls `String::from_utf8_lossy`. Trusted: the text returned is a function of
/// the bytes alone, named `lossy_text`, and well-formed UTF-8 is decoded as it
/// stands.
#[verifier::external_body]
pub(crate) fn decode_lossy(bytes: &Vec<u8>) -> (text: String)
    ensures
        text@ == lossy_text(bytes@),
        valid_utf8(bytes@) ==> text@ == decode_utf8(bytes@),
{
    String::from_utf8_lossy(bytes).into_owned()
}

/// Calls `String::from_utf8`. Trusted: it succeeds exactly on well-formed
/// UTF-8, and the string then holds the characters those bytes encode.
#[verifier::external_body]
pub(crate) fn decode_strict(bytes: Vec<u8>) -> (text: Option<String>)
    ensures
        text is Some <==> valid_utf8(bytes@),
        text is Some ==> text.unwrap()@ == decode_utf8(bytes@),
{
    String::from_utf8(bytes).ok()
}

/// Standard error of a finished command as text, malformed bytes replaced.
pub fn stderr_text(output: &CommandOutput) -> (text: String)
    ensures
        text@ == lossy_text(output.stderr@),
        valid_utf8(output.stderr@) ==> text@ == decode_utf8(output.stderr@),
{
    decode_lossy(&output.stderr)
}

/// Standard output of a finished command as text, if it is well-formed UTF-8.
pub fn stdout_text(output: CommandOutput) -> (text: Option<String>)
    ensures
        text is Some <==> valid_utf8(output.stdout@),
        text is Some ==> text.unwrap()@ == decode_utf8(output.stdout@),
{
    decode_strict(output.stdout)
}

/// A subprocess to run: the program, its arguments in order, and the working
/// directory where one is set.
#[derive(Debug)]
pub struct CommandLine {
    pub program: String,
    pub arguments: Vec<String>,
    pub directory: Option<String>,
}

/// Mathematical value of a command line.
pub struct CommandLineView {
    pub program: Seq<char>,
    pub arguments: Seq<Seq<char>>,
    pub directory: Option<Seq<char>>,
}

impl View for CommandLine {
    type V = CommandLineView;

    open spec fn view(&self) -> CommandLineView {
        CommandLineView {
            program: self.program@,
            arguments: self.arguments@.map_values(|s: String| s@),
            directory: match self.directory {
                Some(d) => Some(d@),
                None => None,
            },
        }
    }
}

/// A command line of a program and its arguments, with no working directory set.
pub fn command_line(program: &str, arguments: &Vec<&str>) -> (line: CommandLine)
    ensures
        line@ == (CommandLineView {
            program: program@,
            arguments: arguments@.map_values(|s: &str| s@),
            directory: None,
        }),
{
    let mut owned: Vec<String> = Vec::new();
    let mut i: usize = 0;
    while i < arguments.len()
        invariant
            i <= arguments.len(),
            owned@.map_values(|s: String| s@) == arguments@.take(i as int).map_values(
                |s: &str| s@,
            ),
        decreases arguments.len() - i,
    {
        let ghost before = owned@.map_values(|s: String| s@);
        owned.push(String::from_str(arguments[i]));
        assert(owned@.map_values(|s: String| s@) =~= before.push(arguments@[i as int]@));
        assert(arguments@.take(i + 1).map_values(|s: &str| s@) =~= before.push(
            arguments@[i as int]@,
        ));
        i += 1;
    }
    assert(arguments@.take(i as int) =~= arguments@);
    CommandLine { program: String::from_str(program), arguments: owned, directory: None }
}

} // verus!
