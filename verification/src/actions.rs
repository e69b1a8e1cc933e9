//! The answers of the operations offered to the interface, decided from what
//! the filesystem and the spawned processes reported.

use vstd::prelude::*;
use vstd::string::*;
use crate::command::{command_line, CommandLine, CommandLineView};

verus! {

/// A greeting that echoes the name; a connectivity check.
pub fn greet(name: &str) -> (greeting: String)
    ensures
        greeting@ == "Hello, "@ + name@ + "! You've been greeted from Rust!"@,
{
    String::from_str("Hello, ").concat(name).concat("! You've been greeted from Rust!")
}

/// The default install path: under the home directory where one is known,
/// else a fixed shared location. Never an error.
pub fn get_default_install_path(home: Option<String>) -> (path: Result<String, String>)
    ensures
        path is Ok,
        path.unwrap()@ == match home {
            Some(h) => h@ + "/Documents/IndexTTS"@,
            None => "/Users/Shared/IndexTTS"@,
        },
{
    match home {
        Some(h) => Ok(h.concat("/Documents/IndexTTS")),
        None => Ok(String::from_str("/Users/Shared/IndexTTS")),
    }
}

/// The answer to a request to install, given how making sure that the install
/// directory exists went: an acknowledgement, or the reason it could not be
/// created.
pub fn start_installation(directory: Result<(), String>) -> (answer: Result<String, String>)
    ensures
        match directory {
            Ok(_) => answer is Ok && answer.unwrap()@ == "Installation started"@,
            Err(reason) => answer is Err && answer.unwrap_err()@
                == "Failed to create install directory: "@ + reason@,
        },
{
    match directory {
        Ok(_) => Ok(String::from_str("Installation started")),
        Err(reason) => Err(
            String::from_str("Failed to create install directory: ").concat(reason.as_str()),
        ),
    }
}

/// Name of the entry-point file expected in the install path.
pub fn entry_point_name() -> (name: &'static str)
    ensures
        name@ == "main.py"@,
{
    "main.py"
}

/// Whether the application can be launched: the install path must exist, and
/// the entry point in it. The path is looked at first.
pub fn launch_check(path_exists: bool, entry_point_exists: bool) -> (verdict: Result<(), String>)
    ensures
        verdict is Ok <==> path_exists && entry_point_exists,
        !path_exists ==> verdict.unwrap_err()@ == "Installation path does not exist"@,
        path_exists && !entry_point_exists ==> verdict.unwrap_err()@
            == "IndexTTS main.py not found in installation directory"@,
{
    if !path_exists {
        Err(String::from_str("Installation path does not exist"))
    } else if !entry_point_exists {
        Err(String::from_str("IndexTTS main.py not found in installation directory"))
    } else {
        Ok(())
    }
}

/// The command that launches the application: the interpreter on the entry
/// point, with the install path as its working directory.
pub fn launch_command(install_path: &str) -> (line: CommandLine)
    ensures
        line@ == (CommandLineView {
            program: "python"@,
            arguments: seq!["main.py"@],
            directory: Some(install_path@),
        }),
{
    let arguments = vec![entry_point_name()];
    let mut line = command_line("python", &arguments);
    assert(line@.arguments =~= seq!["main.py"@]);
    line.directory = Some(String::from_str(install_path));
    line
}

/// Launches the application where it can be launched. The install path is
/// looked at first, then the entry point; only where both exist is the
/// process started, through `spawn`, and the answer tells how that went.
pub fn launch_indextts<F: FnOnce() -> Result<(), String>>(
    path_exists: bool,
    entry_point_exists: bool,
    spawn: F,
) -> (answer: Result<String, String>)
    requires
        path_exists && entry_point_exists ==> spawn.requires(()),
    ensures
        !path_exists ==> answer is Err && answer.unwrap_err()@
            == "Installation path does not exist"@,
        path_exists && !entry_point_exists ==> answer is Err && answer.unwrap_err()@
            == "IndexTTS main.py not found in installation directory"@,
        path_exists && entry_point_exists ==> exists|spawned: Result<(), String>|
            spawn.ensures((), spawned) && match spawned {
                Ok(_) => answer is Ok && answer.unwrap()@ == "IndexTTS launched successfully"@,
                Err(reason) => answer is Err && answer.unwrap_err()@
                    == "Failed to launch IndexTTS: "@ + reason@,
            },
{
    match launch_check(path_exists, entry_point_exists) {
        Err(refusal) => Err(refusal),
        Ok(_) => match spawn() {
            Ok(_) => Ok(String::from_str("IndexTTS launched successfully")),
            Err(reason) => Err(
                String::from_str("Failed to launch IndexTTS: ").concat(reason.as_str()),
            ),
        },
    }
}

/// Whether the install directory can be opened: it must exist.
pub fn open_check(path_exists: bool) -> (verdict: Result<(), String>)
    ensures
        verdict is Ok <==> path_exists,
        !path_exists ==> verdict.unwrap_err()@ == "Installation directory does not exist"@,
{
    if path_exists {
        Ok(())
    } else {
        Err(String::from_str("Installation directory does not exist"))
    }
}

/// The command that shows the install directory in the file manager.
pub fn open_command(install_path: &str) -> (line: CommandLine)
    ensures
        line@ == (CommandLineView {
            program: "open"@,
            arguments: seq![install_path@],
            directory: None,
        }),
{
    let arguments = vec![install_path];
    let line = command_line("open", &arguments);
    assert(line@.arguments =~= seq![install_path@]);
    line
}

/// Shows the install directory in the file manager where it exists; only
/// then is the file manager started, through `spawn`, and the answer tells
/// how that went.
pub fn open_install_directory<F: FnOnce() -> Result<(), String>>(
    path_exists: bool,
    spawn: F,
) -> (answer: Result<(), String>)
    requires
        path_exists ==> spawn.requires(()),
    ensures
        !path_exists ==> answer is Err && answer.unwrap_err()@
            == "Installation directory does not exist"@,
        path_exists ==> exists|spawned: Result<(), String>|
            spawn.ensures((), spawned) && match spawned {
                Ok(_) => answer is Ok,
                Err(reason) => answer is Err && answer.unwrap_err()@
                    == "Failed to open directory: "@ + reason@,
            },
{
    match open_check(path_exists) {
        Err(refusal) => Err(refusal),
        Ok(_) => match spawn() {
            Ok(_) => Ok(()),
            Err(reason) => Err(
                String::from_str("Failed to open directory: ").concat(reason.as_str()),
            ),
        },
    }
}

} // verus!
