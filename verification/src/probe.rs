//! The host capability probe: what the reports of the probed tools mean, and
//! the snapshot assembled from them.

use vstd::prelude::*;
use vstd::string::*;
use vstd::utf8::*;
use crate::command::{command_line, stdout_text, CommandLine, CommandLineView, CommandOutput};
use crate::text::{
    chars_of, find_char, find_from, has_prefix, starts_with_at, trim_bounds, trimmed,
};

verus! {

/// Snapshot of what the host offers.
#[derive(Debug)]
pub struct SystemInfo {
    pub os: String,
    pub os_version: String,
    pub cpu_name: String,
    pub cpu_cores: usize,
    pub total_memory: u64,
    pub available_memory: u64,
    pub total_disk_space: u64,
    pub available_disk_space: u64,
    pub gpu_info: Vec<String>,
    pub python_version: Option<String>,
    pub git_version: Option<String>,
    pub cuda_available: bool,
}

/// Size and free space of one mounted volume, in bytes.
#[derive(Clone, Copy, Debug)]
pub struct DiskSpace {
    pub total: u64,
    pub available: u64,
}

/// What was read from the host, before any fallback is applied.
#[derive(Debug)]
pub struct HostReadings {
    /// Name of the operating system, if it could be told.
    pub os_name: Option<String>,
    /// Version of the operating system, if it could be told.
    pub os_version: Option<String>,
    /// Model string of each logical processor, in order.
    pub cpu_names: Vec<String>,
    pub total_memory: u64,
    pub available_memory: u64,
    /// Every mounted volume, shared mounts counted as often as they appear.
    pub disks: Vec<DiskSpace>,
    /// Outcome of the display-information command.
    pub display_report: Result<CommandOutput, String>,
    /// Outcome of asking the interpreter's first executable for its version.
    pub python3_report: Result<CommandOutput, String>,
    /// Outcome of asking the version-control client for its version.
    pub git_report: Result<CommandOutput, String>,
    /// Outcome of the vendor's GPU diagnostic tool.
    pub cuda_report: Result<CommandOutput, String>,
}

/// The texts of a sequence of strings.
pub open spec fn texts(strings: Seq<String>) -> Seq<Seq<char>> {
    strings.map_values(|s: String| s@)
}

/// The text of an optional string.
pub open spec fn opt_text(string: Option<String>) -> Option<Seq<char>> {
    match string {
        Some(s) => Some(s@),
        None => None,
    }
}

/// The GPU model that a line of the display report names: the line, trimmed,
/// opens with `Chipset Model:`, and the model is all that follows, trimmed.
pub open spec fn chipset_name(line: Seq<char>) -> Option<Seq<char>> {
    if has_prefix(trimmed(line), "Chipset Model:"@) {
        Some(trimmed(trimmed(line).skip("Chipset Model:"@.len() as int)))
    } else {
        None
    }
}

/// The GPU models named in a display report, line by line, in the order met.
/// Lines end at a line feed; a carriage return before it is whitespace and
/// goes with the trimming.
pub open spec fn gpu_names(text: Seq<char>) -> Seq<Seq<char>>
    decreases text.len(),
{
    if text.len() == 0 {
        Seq::empty()
    } else {
        let end = find_from(text, '\n', 0);
        let head = match chipset_name(text.take(end)) {
            Some(name) => seq![name],
            None => Seq::empty(),
        };
        if 0 <= end < text.len() {
            head + gpu_names(text.skip(end + 1))
        } else {
            head
        }
    }
}

/// The list reported for the GPUs found: the single placeholder where none was.
pub open spec fn gpu_list(found: Seq<Seq<char>>) -> Seq<Seq<char>> {
    if found.len() == 0 {
        seq!["Unknown GPU"@]
    } else {
        found
    }
}

/// The GPU models that the outcome of the display-information command names:
/// none where the command did not run or its output is not UTF-8.
pub open spec fn reported_gpus(outcome: Result<CommandOutput, String>) -> Seq<Seq<char>> {
    match outcome {
        Ok(output) => if valid_utf8(output.stdout@) {
            gpu_names(decode_utf8(output.stdout@))
        } else {
            Seq::empty()
        },
        Err(_) => Seq::empty(),
    }
}

/// The version that a tool's answer holds: the answer trimmed, unless that is empty.
pub open spec fn version_in(text: Seq<char>) -> Option<Seq<char>> {
    if trimmed(text).len() == 0 {
        None
    } else {
        Some(trimmed(text))
    }
}

/// The version that the outcome of `<tool> --version` holds: none where the
/// tool did not run, its output is not UTF-8 or is blank.
pub open spec fn reported_version(outcome: Result<CommandOutput, String>) -> Option<Seq<char>> {
    match outcome {
        Ok(output) => if valid_utf8(output.stdout@) {
            version_in(decode_utf8(output.stdout@))
        } else {
            None
        },
        Err(_) => None,
    }
}

/// Sum of the sizes of the volumes.
pub open spec fn total_space(disks: Seq<DiskSpace>) -> nat
    decreases disks.len(),
{
    if disks.len() == 0 {
        0
    } else {
        total_space(disks.drop_last()) + disks.last().total as nat
    }
}

/// Sum of the free space of the volumes.
pub open spec fn available_space(disks: Seq<DiskSpace>) -> nat
    decreases disks.len(),
{
    if disks.len() == 0 {
        0
    } else {
        available_space(disks.drop_last()) + disks.last().available as nat
    }
}

/// The sums over the first volumes never exceed the sums over all.
pub proof fn lemma_space_of_prefix(disks: Seq<DiskSpace>, n: int)
    requires
        0 <= n <= disks.len(),
    ensures
        total_space(disks.take(n)) <= total_space(disks),
        available_space(disks.take(n)) <= available_space(disks),
    decreases disks.len(),
{
    if n < disks.len() {
        assert(disks.drop_last().take(n) =~= disks.take(n));
        lemma_space_of_prefix(disks.drop_last(), n);
    } else {
        assert(disks.take(n) =~= disks);
    }
}

/// The GPU model named by the line `chars[from..to]` of `text`, whose
/// characters `chars` are.
fn chipset_name_in(
    text: &str,
    chars: &Vec<char>,
    prefix: &Vec<char>,
    from: usize,
    to: usize,
) -> (name: Option<String>)
    requires
        chars@ == text@,
        prefix@ == "Chipset Model:"@,
        from <= to <= chars.len(),
    ensures
        opt_text(name) == chipset_name(chars@.subrange(from as int, to as int)),
{
    let (start, end) = trim_bounds(chars, from, to);
    if !starts_with_at(chars, start, end, prefix) {
        return None;
    }
    let (first, last) = trim_bounds(chars, start + prefix.len(), end);
    proof {
        let whole = chars@.subrange(start as int, end as int);
        assert(whole.skip(prefix@.len() as int) =~= chars@.subrange(
            start + prefix@.len(),
            end as int,
        ));
    }
    Some(String::from_str(text.substring_char(first, last)))
}

/// The GPU model that one line of the display report names, if it names one.
pub fn chipset_model(line: &str) -> (name: Option<String>)
    ensures
        opt_text(name) == chipset_name(line@),
{
    let chars = chars_of(line);
    let prefix = chars_of("Chipset Model:");
    assert(chars@.subrange(0, chars@.len() as int) =~= line@);
    chipset_name_in(line, &chars, &prefix, 0, chars.len())
}

/// The GPU models named in a display report, in the order met.
pub fn parse_gpu_names(text: &str) -> (names: Vec<String>)
    ensures
        texts(names@) == gpu_names(text@),
{
    let chars = chars_of(text);
    let prefix = chars_of("Chipset Model:");
    let len = chars.len();
    let mut names: Vec<String> = Vec::new();
    let mut pos: usize = 0;
    assert(chars@.skip(0) =~= text@);
    assert(texts(names@) + gpu_names(text@) =~= gpu_names(text@));
    while pos < len
        invariant
            pos <= len == chars.len(),
            chars@ == text@,
            prefix@ == "Chipset Model:"@,
            texts(names@) + gpu_names(chars@.skip(pos as int)) == gpu_names(text@),
        decreases len - pos,
    {
        let ghost rest = chars@.skip(pos as int);
        let ghost before = texts(names@);
        let end = find_char(&chars, '\n', pos, len);
        assert(rest =~= chars@.subrange(pos as int, len as int));
        assert(rest.take(end - pos) =~= chars@.subrange(pos as int, end as int));
        let found = chipset_name_in(text, &chars, &prefix, pos, end);
        match found {
            Some(name) => {
                names.push(name);
                assert(texts(names@) =~= before + seq![name@]);
            },
            None => {},
        }
        if end < len {
            assert(rest.skip(end - pos + 1) =~= chars@.skip(end + 1));
            pos = end + 1;
        } else {
            pos = len;
        }
        assert(texts(names@) + gpu_names(chars@.skip(pos as int)) =~= gpu_names(text@));
    }
    assert(texts(names@) + gpu_names(chars@.skip(pos as int)) =~= texts(names@));
    names
}

/// The list to report for the GPUs found: the placeholder where none was.
pub fn or_unknown_gpu(found: Vec<String>) -> (list: Vec<String>)
    ensures
        texts(list@) == gpu_list(texts(found@)),
        list@.len() > 0,
{
    let mut list = found;
    if list.len() == 0 {
        list.push(String::from_str("Unknown GPU"));
        assert(texts(list@) =~= seq!["Unknown GPU"@]);
    }
    list
}

/// The GPU list from the outcome of the display-information command. Never
/// empty: the placeholder stands in where the command did not run, its
/// output is not UTF-8, or no line names a model.
pub fn get_gpu_info(outcome: Result<CommandOutput, String>) -> (list: Vec<String>)
    ensures
        texts(list@) == gpu_list(reported_gpus(outcome)),
        list@.len() > 0,
{
    let mut found: Vec<String> = Vec::new();
    assert(texts(found@) =~= Seq::empty());
    match outcome {
        Ok(output) => match stdout_text(output) {
            Some(text) => {
                found = parse_gpu_names(text.as_str());
            },
            None => {},
        },
        Err(_) => {},
    }
    or_unknown_gpu(found)
}

/// The version that a tool's answer holds: the answer trimmed, unless that is empty.
pub fn version_text(text: &str) -> (version: Option<String>)
    ensures
        opt_text(version) == version_in(text@),
{
    let chars = chars_of(text);
    let (start, end) = trim_bounds(&chars, 0, chars.len());
    assert(chars@.subrange(0, chars@.len() as int) =~= text@);
    if start == end {
        None
    } else {
        Some(String::from_str(text.substring_char(start, end)))
    }
}

/// The version from the outcome of `<tool> --version`.
pub fn get_command_version(outcome: Result<CommandOutput, String>) -> (version: Option<String>)
    ensures
        opt_text(version) == reported_version(outcome),
{
    match outcome {
        Ok(output) => match stdout_text(output) {
            Some(text) => version_text(text.as_str()),
            None => None,
        },
        Err(_) => None,
    }
}

/// The version from the first tool's answer, or, where that holds none, from
/// the answer of a second tool, which is asked only then.
pub fn version_with_fallback<F: FnOnce() -> Result<CommandOutput, String>>(
    first: Result<CommandOutput, String>,
    ask_second: F,
) -> (version: Option<String>)
    requires
        reported_version(first) is None ==> ask_second.requires(()),
    ensures
        reported_version(first) is Some ==> opt_text(version) == reported_version(first),
        reported_version(first) is None ==> exists|second: Result<CommandOutput, String>|
            ask_second.ensures((), second) && opt_text(version) == reported_version(second),
{
    match get_command_version(first) {
        Some(version) => Some(version),
        None => get_command_version(ask_second()),
    }
}

/// Whether the vendor's diagnostic tool ran and exited with success; a tool
/// that could not be started counts as absent.
pub fn check_cuda_availability(outcome: &Result<CommandOutput, String>) -> (available: bool)
    ensures
        available == (outcome matches Ok(output) && output.success),
{
    match outcome {
        Ok(output) => output.success,
        Err(_) => false,
    }
}

/// The sums of size and free space over all volumes, or `None` where a sum
/// does not fit in 64 bits.
pub fn disk_totals(disks: &Vec<DiskSpace>) -> (sums: Option<(u64, u64)>)
    ensures
        match sums {
            Some((total, available)) => total == total_space(disks@) && available
                == available_space(disks@),
            None => total_space(disks@) > u64::MAX || available_space(disks@) > u64::MAX,
        },
{
    let mut total: u64 = 0;
    let mut available: u64 = 0;
    let mut i: usize = 0;
    while i < disks.len()
        invariant
            i <= disks.len(),
            total == total_space(disks@.take(i as int)),
            available == available_space(disks@.take(i as int)),
        decreases disks.len() - i,
    {
        let disk = disks[i];
        proof {
            assert(disks@.take(i + 1).drop_last() =~= disks@.take(i as int));
            lemma_space_of_prefix(disks@, i + 1);
        }
        if disk.total > u64::MAX - total || disk.available > u64::MAX - available {
            return None;
        }
        total = total + disk.total;
        available = available + disk.available;
        i += 1;
    }
    assert(disks@.take(i as int) =~= disks@);
    Some((total, available))
}

/// The name to report where the host gave none.
pub open spec fn or_unknown(name: Option<String>) -> Seq<char> {
    match name {
        Some(n) => n@,
        None => "Unknown"@,
    }
}

/// The snapshot that the readings amount to. Each reading degrades on its
/// own: a missing name becomes `Unknown`, a tool that did not answer leaves
/// its version absent, a GPU report without a model gives the placeholder.
/// The interpreter's version is that of the first executable where its
/// answer holds one, else that of the second, asked through `ask_python`.
pub open spec fn snapshot_of<F: FnOnce() -> Result<CommandOutput, String>>(
    readings: HostReadings,
    ask_python: F,
    info: SystemInfo,
) -> bool {
    &&& info.os@ == or_unknown(readings.os_name)
    &&& info.os_version@ == or_unknown(readings.os_version)
    &&& info.cpu_name@ == if readings.cpu_names@.len() > 0 {
        readings.cpu_names@[0]@
    } else {
        "Unknown"@
    }
    &&& info.cpu_cores == readings.cpu_names@.len()
    &&& info.total_memory == readings.total_memory
    &&& info.available_memory == readings.available_memory
    &&& info.total_disk_space == total_space(readings.disks@)
    &&& info.available_disk_space == available_space(readings.disks@)
    &&& texts(info.gpu_info@) == gpu_list(reported_gpus(readings.display_report))
    &&& reported_version(readings.python3_report) is Some ==> opt_text(info.python_version)
        == reported_version(readings.python3_report)
    &&& reported_version(readings.python3_report) is None ==> exists|
        second: Result<CommandOutput, String>,
    |
        ask_python.ensures((), second) && opt_text(info.python_version) == reported_version(
            second,
        )
    &&& opt_text(info.git_version) == reported_version(readings.git_report)
    &&& info.cuda_available == (readings.cuda_report matches Ok(output) && output.success)
}

/// Assembles the snapshot from what was read, asking the interpreter's second
/// executable through `ask_python` only where the first gave no version.
/// Always succeeds; the GPU list of the snapshot is never empty.
pub fn get_system_info<F: FnOnce() -> Result<CommandOutput, String>>(
    readings: HostReadings,
    ask_python: F,
) -> (result: Result<SystemInfo, String>)
    requires
        reported_version(readings.python3_report) is None ==> ask_python.requires(()),
        total_space(readings.disks@) <= u64::MAX,
        available_space(readings.disks@) <= u64::MAX,
    ensures
        result matches Ok(info) && snapshot_of(readings, ask_python, info) && info.gpu_info@.len()
            > 0,
{
    let cpu_cores = readings.cpu_names.len();
    let cpu_name = if cpu_cores > 0 {
        readings.cpu_names[0].clone()
    } else {
        String::from_str("Unknown")
    };
    let (total_disk_space, available_disk_space) = match disk_totals(&readings.disks) {
        Some(sums) => sums,
        None => vstd::pervasive::unreached(),
    };
    let cuda_available = check_cuda_availability(&readings.cuda_report);
    let os = match readings.os_name {
        Some(name) => name,
        None => String::from_str("Unknown"),
    };
    let os_version = match readings.os_version {
        Some(version) => version,
        None => String::from_str("Unknown"),
    };
    Ok(
        SystemInfo {
            os,
            os_version,
            cpu_name,
            cpu_cores,
            total_memory: readings.total_memory,
            available_memory: readings.available_memory,
            total_disk_space,
            available_disk_space,
            gpu_info: get_gpu_info(readings.display_report),
            python_version: version_with_fallback(readings.python3_report, ask_python),
            git_version: get_command_version(readings.git_report),
            cuda_available,
        },
    )
}

/// Whatever the display-information command gave, a GPU list that follows
/// its report holds at least one entry, and exactly the placeholder where the
/// command did not run or its report names no model.
pub proof fn law_snapshot_gpu_list(readings: HostReadings, info: SystemInfo)
    requires
        texts(info.gpu_info@) == gpu_list(reported_gpus(readings.display_report)),
    ensures
        info.gpu_info@.len() >= 1,
        reported_gpus(readings.display_report).len() == 0 ==> texts(info.gpu_info@)
            == seq!["Unknown GPU"@],
        readings.display_report is Err ==> texts(info.gpu_info@) == seq!["Unknown GPU"@],
{
    assert(texts(info.gpu_info@).len() == info.gpu_info@.len());
}

/// A CUDA flag that follows the report of the diagnostic tool is unset where
/// the tool could not be started.
pub proof fn law_snapshot_without_cuda_tool(readings: HostReadings, info: SystemInfo)
    requires
        info.cuda_available == (readings.cuda_report matches Ok(output) && output.success),
        readings.cuda_report is Err,
    ensures
        !info.cuda_available,
{
}

/// The GPU list of a snapshot is never empty, and is exactly the placeholder
/// where the display report names no model.
pub proof fn law_gpu_list_never_empty(found: Seq<Seq<char>>)
    ensures
        gpu_list(found).len() > 0,
        found.len() == 0 ==> gpu_list(found) == seq!["Unknown GPU"@],
        found.len() > 0 ==> gpu_list(found) == found,
{
}

/// The display-information command whose report names the GPUs.
pub fn display_report_command() -> (line: CommandLine)
    ensures
        line@ == (CommandLineView {
            program: "system_profiler"@,
            arguments: seq!["SPDisplaysDataType"@],
            directory: None,
        }),
{
    let arguments = vec!["SPDisplaysDataType"];
    let line = command_line("system_profiler", &arguments);
    assert(line@.arguments =~= seq!["SPDisplaysDataType"@]);
    line
}

/// The command that asks `tool` for its version.
pub fn version_command(tool: &str) -> (line: CommandLine)
    ensures
        line@ == (CommandLineView {
            program: tool@,
            arguments: seq!["--version"@],
            directory: None,
        }),
{
    let arguments = vec!["--version"];
    let line = command_line(tool, &arguments);
    assert(line@.arguments =~= seq!["--version"@]);
    line
}

/// The vendor's GPU diagnostic tool, run without arguments.
pub fn cuda_command() -> (line: CommandLine)
    ensures
        line@ == (CommandLineView {
            program: "nvidia-smi"@,
            arguments: Seq::empty(),
            directory: None,
        }),
{
    let arguments: Vec<&str> = Vec::new();
    let line = command_line("nvidia-smi", &arguments);
    assert(line@.arguments =~= Seq::empty());
    line
}

} // verus!
