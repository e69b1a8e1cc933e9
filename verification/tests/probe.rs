use indextts_installer::command::{stderr_text, stdout_text, CommandOutput};
use indextts_installer::probe::{
    check_cuda_availability, chipset_model, cuda_command, disk_totals, display_report_command,
    get_command_version, get_gpu_info, get_system_info, or_unknown_gpu, parse_gpu_names,
    version_command, version_text, version_with_fallback, DiskSpace, HostReadings,
};
use indextts_installer::text::{chars_of, find_char, is_space_char, starts_with_at, trim_bounds};

fn answered(stdout: &[u8]) -> Result<CommandOutput, String> {
    Ok(CommandOutput { success: true, stdout: stdout.to_vec(), stderr: Vec::new() })
}

fn absent() -> Result<CommandOutput, String> {
    Err("No such file or directory (os error 2)".to_string())
}

const REPORT: &str = "Graphics/Displays:\n\n    Apple M1 Pro:\n\n      Chipset Model: Apple M1 Pro\n      Type: GPU\n      Bus: Built-In\n    Radeon:\n      Chipset Model: AMD Radeon Pro 5500M\r\n      VRAM: 8 GB\n";

#[test]
fn gpu_names_in_order_of_appearance() {
    assert_eq!(parse_gpu_names(REPORT), vec!["Apple M1 Pro", "AMD Radeon Pro 5500M"]);
}

fn read_line_by_line(report: &str) -> Vec<String> {
    let mut names: Vec<String> = Vec::new();
    for line in report.lines() {
        if let Some(rest) = line.trim().strip_prefix("Chipset Model:") {
            names.push(rest.trim().to_string());
        }
    }
    names
}

#[test]
fn gpu_names_match_line_by_line_reading() {
    let reports = vec![
        REPORT,
        "",
        "\n",
        "\r\n",
        "Chipset Model: A\r\nChipset Model: B\r\n",
        "Chipset Model: A\rChipset Model: B",
        "Chipset Model: A\r",
        "Chipset Model:\r\n",
        "Chipset Model:: x\n",
        "  \u{a0}Chipset Model:\u{2003}Wide\u{3000}:rest\n",
        "Chipset Model\n: A\n",
        "Chipset Model: A\n\nChipset Model: B: C\n  Chipset Model:D",
        "x:Chipset Model: A\nChipset Model: \u{85}\n",
    ];
    for report in reports {
        assert_eq!(parse_gpu_names(report), read_line_by_line(report), "{:?}", report);
    }
}

#[test]
fn gpu_name_is_all_that_follows_the_prefix() {
    assert_eq!(chipset_model("  Chipset Model: Foo: Bar"), Some("Foo: Bar".to_string()));
    assert_eq!(
        chipset_model("      Chipset Model: Radeon Pro: 5500M"),
        Some("Radeon Pro: 5500M".to_string())
    );
    assert_eq!(chipset_model("Chipset Model:"), Some(String::new()));
    assert_eq!(chipset_model("Chipset Model:X"), Some("X".to_string()));
    assert_eq!(chipset_model("Chipset Model:: x "), Some(": x".to_string()));
    assert_eq!(chipset_model("\tChipset Model: \u{3000}Wide\u{a0}"), Some("Wide".to_string()));
    assert_eq!(
        get_gpu_info(answered(b"      Chipset Model: Radeon Pro: 5500M\n")),
        vec!["Radeon Pro: 5500M"]
    );
}

#[test]
fn other_lines_name_no_gpu() {
    assert_eq!(chipset_model(""), None);
    assert_eq!(chipset_model("Chipset Model"), None);
    assert_eq!(chipset_model("x Chipset Model: Foo"), None);
    assert_eq!(chipset_model("chipset model: Foo"), None);
    assert_eq!(chipset_model("Type: GPU"), None);
}

#[test]
fn gpu_report_without_final_line_feed() {
    assert_eq!(parse_gpu_names("Chipset Model: A\nChipset Model: B"), vec!["A", "B"]);
    assert_eq!(parse_gpu_names("Chipset Model: A"), vec!["A"]);
    assert_eq!(parse_gpu_names(""), Vec::<String>::new());
    assert_eq!(parse_gpu_names("\n\n"), Vec::<String>::new());
}

#[test]
fn gpu_list_is_never_empty() {
    assert_eq!(get_gpu_info(absent()), vec!["Unknown GPU"]);
    assert_eq!(get_gpu_info(answered(b"")), vec!["Unknown GPU"]);
    assert_eq!(get_gpu_info(answered(b"Displays:\n  Type: GPU\n")), vec!["Unknown GPU"]);
    assert_eq!(get_gpu_info(answered(&[0xFF, 0xFE, b'\n'])), vec!["Unknown GPU"]);
    assert_eq!(or_unknown_gpu(Vec::new()), vec!["Unknown GPU"]);
    assert_eq!(or_unknown_gpu(vec!["A".to_string()]), vec!["A"]);
}

#[test]
fn gpu_list_from_report() {
    assert_eq!(
        get_gpu_info(answered(REPORT.as_bytes())),
        vec!["Apple M1 Pro", "AMD Radeon Pro 5500M"]
    );
    let failed = Ok(CommandOutput {
        success: false,
        stdout: b"Chipset Model: Still Read\n".to_vec(),
        stderr: Vec::new(),
    });
    assert_eq!(get_gpu_info(failed), vec!["Still Read"]);
}

#[test]
fn version_is_trimmed_output() {
    assert_eq!(
        get_command_version(answered(b"git version 2.39.3 (Apple Git-146)\n")),
        Some("git version 2.39.3 (Apple Git-146)".to_string())
    );
    assert_eq!(version_text("  Python 3.11.4 \r\n"), Some("Python 3.11.4".to_string()));
    assert_eq!(version_text("x"), Some("x".to_string()));
}

#[test]
fn version_is_absent_without_output() {
    assert_eq!(get_command_version(absent()), None);
    assert_eq!(get_command_version(answered(b"")), None);
    assert_eq!(get_command_version(answered(b" \n\t ")), None);
    assert_eq!(get_command_version(answered(&[b'v', 0xC3])), None);
    assert_eq!(version_text(""), None);
    assert_eq!(version_text("\u{2003}\u{85}"), None);
}

#[test]
fn cuda_is_unavailable_when_tool_is_absent() {
    assert!(!check_cuda_availability(&absent()));
    assert!(check_cuda_availability(&answered(b"")));
    let failed = Ok(CommandOutput { success: false, stdout: Vec::new(), stderr: Vec::new() });
    assert!(!check_cuda_availability(&failed));
}

#[test]
fn disk_space_is_summed_over_all_volumes() {
    let disks = vec![
        DiskSpace { total: 500, available: 120 },
        DiskSpace { total: 500, available: 120 },
        DiskSpace { total: 1000, available: 1 },
    ];
    assert_eq!(disk_totals(&disks), Some((2000, 241)));
    assert_eq!(disk_totals(&Vec::new()), Some((0, 0)));
    let huge = vec![
        DiskSpace { total: u64::MAX, available: 0 },
        DiskSpace { total: 1, available: 0 },
    ];
    assert_eq!(disk_totals(&huge), None);
    let edge = vec![
        DiskSpace { total: u64::MAX - 1, available: u64::MAX },
        DiskSpace { total: 1, available: 0 },
    ];
    assert_eq!(disk_totals(&edge), Some((u64::MAX, u64::MAX)));
}

#[test]
fn snapshot_from_readings() {
    let readings = HostReadings {
        os_name: Some("Darwin".to_string()),
        os_version: None,
        cpu_names: vec!["Apple M1 Pro".to_string(), "Apple M1 Pro".to_string()],
        total_memory: 17179869184,
        available_memory: 4294967296,
        disks: vec![DiskSpace { total: 10, available: 4 }, DiskSpace { total: 20, available: 5 }],
        display_report: answered(REPORT.as_bytes()),
        python3_report: answered(b"Python 3.11.4\n"),
        git_report: answered(b"git version 2.39.3\n"),
        cuda_report: absent(),
    };
    let mut asked = false;
    let info = get_system_info(readings, || {
        asked = true;
        answered(b"Python 2.7.18\n")
    })
    .unwrap();
    assert!(!asked);
    assert_eq!(info.os, "Darwin");
    assert_eq!(info.os_version, "Unknown");
    assert_eq!(info.cpu_name, "Apple M1 Pro");
    assert_eq!(info.cpu_cores, 2);
    assert_eq!(info.total_memory, 17179869184);
    assert_eq!(info.available_memory, 4294967296);
    assert_eq!(info.total_disk_space, 30);
    assert_eq!(info.available_disk_space, 9);
    assert_eq!(info.gpu_info, vec!["Apple M1 Pro", "AMD Radeon Pro 5500M"]);
    assert_eq!(info.python_version, Some("Python 3.11.4".to_string()));
    assert_eq!(info.git_version, Some("git version 2.39.3".to_string()));
    assert!(!info.cuda_available);
}

#[test]
fn snapshot_of_a_bare_host() {
    let readings = HostReadings {
        os_name: None,
        os_version: None,
        cpu_names: Vec::new(),
        total_memory: 0,
        available_memory: 0,
        disks: Vec::new(),
        display_report: absent(),
        python3_report: absent(),
        git_report: absent(),
        cuda_report: absent(),
    };
    let info = get_system_info(readings, absent).unwrap();
    assert_eq!(info.os, "Unknown");
    assert_eq!(info.os_version, "Unknown");
    assert_eq!(info.cpu_name, "Unknown");
    assert_eq!(info.cpu_cores, 0);
    assert_eq!(info.total_disk_space, 0);
    assert_eq!(info.available_disk_space, 0);
    assert_eq!(info.gpu_info, vec!["Unknown GPU"]);
    assert_eq!(info.python_version, None);
    assert_eq!(info.git_version, None);
    assert!(!info.cuda_available);
}

#[test]
fn probe_commands() {
    let display = display_report_command();
    assert_eq!(display.program, "system_profiler");
    assert_eq!(display.arguments, vec!["SPDisplaysDataType"]);
    assert_eq!(display.directory, None);
    let version = version_command("python3");
    assert_eq!(version.program, "python3");
    assert_eq!(version.arguments, vec!["--version"]);
    let cuda = cuda_command();
    assert_eq!(cuda.program, "nvidia-smi");
    assert!(cuda.arguments.is_empty());
}

#[test]
fn whitespace_is_the_unicode_property() {
    let mut code: u32 = 0;
    while code < 0x11_0000 {
        if let Some(c) = char::from_u32(code) {
            assert_eq!(is_space_char(c), c.is_whitespace(), "U+{:04X}", code);
        }
        code += 1;
    }
}

#[test]
fn text_helpers() {
    let chars = chars_of(" \tab c\n ");
    assert_eq!(chars, vec![' ', '\t', 'a', 'b', ' ', 'c', '\n', ' ']);
    assert_eq!(trim_bounds(&chars, 0, chars.len()), (2, 6));
    assert_eq!(trim_bounds(&chars, 0, 2), (2, 2));
    assert_eq!(trim_bounds(&chars, 3, 5), (3, 4));
    assert_eq!(find_char(&chars, 'c', 0, chars.len()), 5);
    assert_eq!(find_char(&chars, 'z', 1, 4), 4);
    assert!(starts_with_at(&chars, 2, 6, &chars_of("ab")));
    assert!(!starts_with_at(&chars, 2, 3, &chars_of("ab")));
    assert!(!starts_with_at(&chars, 2, 6, &chars_of("ac")));
    assert_eq!(chars_of("正在"), vec!['正', '在']);
}

#[test]
fn captured_streams_as_text() {
    let output = CommandOutput {
        success: true,
        stdout: "héllo".as_bytes().to_vec(),
        stderr: vec![0x80, b'!'],
    };
    assert_eq!(stderr_text(&output), "\u{FFFD}!");
    assert_eq!(stdout_text(output), Some("héllo".to_string()));
    let broken = CommandOutput { success: true, stdout: vec![0xC0, 0x80], stderr: Vec::new() };
    assert_eq!(stdout_text(broken), None);
}

#[test]
fn second_tool_is_asked_only_when_the_first_is_silent() {
    let mut asked = false;
    let version = version_with_fallback(answered(b"Python 3.12.1\n"), || {
        asked = true;
        answered(b"Python 2.7.18\n")
    });
    assert_eq!(version, Some("Python 3.12.1".to_string()));
    assert!(!asked);

    let mut asked = false;
    let version = version_with_fallback(absent(), || {
        asked = true;
        answered(b"Python 2.7.18\n")
    });
    assert_eq!(version, Some("Python 2.7.18".to_string()));
    assert!(asked);

    assert_eq!(version_with_fallback(answered(b"  \n"), || absent()), None);
    assert_eq!(
        version_with_fallback(answered(b""), || answered(b"Python 3.9.6")),
        Some("Python 3.9.6".to_string())
    );
}

fn bare_readings() -> HostReadings {
    HostReadings {
        os_name: None,
        os_version: None,
        cpu_names: Vec::new(),
        total_memory: 0,
        available_memory: 0,
        disks: Vec::new(),
        display_report: absent(),
        python3_report: absent(),
        git_report: absent(),
        cuda_report: absent(),
    }
}

#[test]
fn snapshot_of_four_tools() {
    let mut readings = bare_readings();
    readings.display_report = answered(b"      Chipset Model: Apple M2\n");
    readings.python3_report = answered(b"Python 3.11.4\n");
    readings.git_report = answered(b"git version 2.39.2\n");
    let info = get_system_info(readings, absent).unwrap();
    assert_eq!(info.gpu_info, vec!["Apple M2"]);
    assert_eq!(info.python_version, Some("Python 3.11.4".to_string()));
    assert_eq!(info.git_version, Some("git version 2.39.2".to_string()));
    assert!(!info.cuda_available);
}

#[test]
fn snapshot_falls_back_to_the_second_interpreter() {
    let mut asked = false;
    let info = get_system_info(bare_readings(), || {
        asked = true;
        answered(b"Python 3.9.6\n")
    })
    .unwrap();
    assert!(asked);
    assert_eq!(info.python_version, Some("Python 3.9.6".to_string()));

    let mut readings = bare_readings();
    readings.python3_report = answered(b" \n");
    let info = get_system_info(readings, || answered(b"Python 3.9.6\n")).unwrap();
    assert_eq!(info.python_version, Some("Python 3.9.6".to_string()));

    let mut readings = bare_readings();
    readings.python3_report = answered(b"");
    let info = get_system_info(readings, || answered(b"\n")).unwrap();
    assert_eq!(info.python_version, None);
}

#[test]
fn snapshot_with_cuda() {
    let mut readings = bare_readings();
    readings.cuda_report = answered(b"NVIDIA-SMI 535.54");
    let info = get_system_info(readings, absent).unwrap();
    assert!(info.cuda_available);
    assert_eq!(info.gpu_info, vec!["Unknown GPU"]);
}
