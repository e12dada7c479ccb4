use lunvix::commands::{email_command, launch_step, sidebar_data, terminal_launch_plan, LaunchStep, Spawned};
use lunvix::model::{DiskDescriptor, Platform, SortColumn, UserDirPaths};
use lunvix::sizes::bytes_to_mb;
use lunvix::timefmt::{format_modified_time, stamp_at};

#[test]
fn sizes_below_a_kib_are_whole_bytes() {
    assert_eq!(bytes_to_mb(0), "0 B");
    assert_eq!(bytes_to_mb(7), "7 B");
    assert_eq!(bytes_to_mb(1023), "1023 B");
}

#[test]
fn sizes_in_larger_units_have_two_decimals() {
    assert_eq!(bytes_to_mb(1024), "1.00 KB");
    assert_eq!(bytes_to_mb(1536), "1.50 KB");
    assert_eq!(bytes_to_mb(1_048_575), "1024.00 KB");
    assert_eq!(bytes_to_mb(1_048_576), "1.00 MB");
    assert_eq!(bytes_to_mb(1_073_741_824), "1.00 GB");
    assert_eq!(bytes_to_mb(5 * 1_073_741_824 + 536_870_912), "5.50 GB");
}

fn float_text(size: u64) -> String {
    if size < 1024 {
        format!("{} B", size)
    } else if size < 1_048_576 {
        format!("{:.2} KB", size as f64 / 1024.0)
    } else if size < 1_073_741_824 {
        format!("{:.2} MB", size as f64 / 1_048_576.0)
    } else {
        format!("{:.2} GB", size as f64 / 1_073_741_824.0)
    }
}

#[test]
fn sizes_round_like_double_formatting() {
    let mut cases: Vec<u64> = vec![1152, 1153, 1151, 1408, 1920, 2_621_440, 10_485_759, u64::MAX, u64::MAX - 1];
    for k in 0..64u32 {
        let p = 1u64 << k;
        cases.push(p);
        cases.push(p.wrapping_sub(1));
        cases.push(p.wrapping_add(1));
        cases.push(p / 3 * 2);
    }
    let mut x: u64 = 0x9e37_79b9_7f4a_7c15;
    for _ in 0..20000 {
        x ^= x << 13;
        x ^= x >> 7;
        x ^= x << 17;
        cases.push(x >> (x % 64));
    }
    for size in 1024..5000u64 {
        cases.push(size);
    }
    for size in cases {
        assert_eq!(bytes_to_mb(size), float_text(size), "size {}", size);
    }
}

#[test]
fn modified_time_in_utc() {
    assert_eq!(format_modified_time(0), "1970-01-01 00:00:00 UTC");
    assert_eq!(format_modified_time(1_700_000_000), "2023-11-14 22:13:20 UTC");
    assert_eq!(format_modified_time(u64::MAX), "1969-12-31 23:59:59 UTC");
}

#[test]
fn modified_time_at_the_ends_of_the_utc_range() {
    assert_eq!(format_modified_time(8_210_266_876_799), "+262142-12-31 23:59:59 UTC");
    assert_eq!(format_modified_time((-8_334_601_228_800i64) as u64), "-262143-01-01 00:00:00 UTC");
}

#[test]
fn email_commands_per_platform() {
    let linux = email_command("/home/u/a.pdf", Platform::Linux).unwrap();
    assert_eq!(linux.program, "xdg-email");
    assert_eq!(linux.args, vec!["--attach".to_string(), "/home/u/a.pdf".to_string()]);
    let win = email_command("C:/docs/a.pdf", Platform::Windows).unwrap();
    assert_eq!(win.program, "powershell");
    assert_eq!(win.args[0], "-Command");
    assert_eq!(
        win.args[1],
        r"& { $outlook = New-Object -ComObject Outlook.Application; $mail = $outlook.CreateItem(0); $mail.Subject = 'Attached File'; $mail.Attachments.Add('C:\docs\a.pdf'); $mail.Display() }"
    );
    let mac = email_command("/Users/u/a.pdf", Platform::MacOs).unwrap();
    assert_eq!(mac.program, "osascript");
    assert_eq!(
        mac.args[1],
        r#"tell application "Mail" to make new outgoing message with properties {visible:true, subject:"Attached File"} and activate; tell content of result to make new attachment with properties {file name:"/Users/u/a.pdf" as alias}"#
    );
    assert!(email_command("/x", Platform::Other).is_none());
}

#[test]
fn terminal_opens_parent_folder_of_files() {
    let cmds = terminal_launch_plan("/home/u/notes.txt", true, true, Platform::Linux).unwrap();
    let programs: Vec<&str> = cmds.iter().map(|c| c.program.as_str()).collect();
    assert_eq!(programs, vec!["gnome-terminal", "konsole", "alacritty", "kitty", "xterm"]);
    assert_eq!(cmds[1].args, vec!["--workdir".to_string(), "/home/u".to_string()]);
    assert_eq!(cmds[3].args, vec!["--directory".to_string(), "/home/u".to_string()]);
    assert!(cmds[4].args.is_empty());
    assert_eq!(cmds[4].working_dir.as_deref(), Some("/home/u"));
    let dir = terminal_launch_plan("/home/u", true, false, Platform::MacOs).unwrap();
    assert_eq!(dir[0].program, "open");
    assert_eq!(dir[0].args, vec!["-a".to_string(), "Terminal".to_string(), "/home/u".to_string()]);
    let win = terminal_launch_plan(r"C:\x", true, false, Platform::Windows).unwrap();
    assert_eq!(win[0].program, "cmd");
    assert_eq!(win[0].working_dir.as_deref(), Some(r"C:\x"));
    assert_eq!(terminal_launch_plan("/nope", false, false, Platform::Linux).unwrap_err(), "Path does not exist");
    assert_eq!(terminal_launch_plan("/", true, true, Platform::Linux).unwrap_err(), "Could not find parent directory");
}

#[test]
fn sidebar_labels_and_fallbacks() {
    let dirs = UserDirPaths { home: "/home/u".to_string(), desktop: None, downloads: Some("/home/u/Downloads".to_string()) };
    let disks = vec![
        DiskDescriptor { name: "".to_string(), mount_point: "/".to_string() },
        DiskDescriptor { name: "USB".to_string(), mount_point: "/media/usb".to_string() },
    ];
    let s = sidebar_data(Some(dirs), disks);
    assert_eq!(
        s.quick_access,
        vec![
            ("🏠 Home".to_string(), "/home/u".to_string()),
            ("🖥️ Desktop".to_string(), "/home/u".to_string()),
            ("📥 Downloads".to_string(), "/home/u/Downloads".to_string()),
        ]
    );
    assert_eq!(
        s.system_disks,
        vec![("/".to_string(), "/".to_string()), ("USB".to_string(), "/media/usb".to_string())]
    );
    assert!(sidebar_data(None, vec![]).quick_access.is_empty());
}

#[test]
fn default_sort_column_is_name() {
    assert_eq!(SortColumn::default(), SortColumn::Name);
}

fn run_launch(platform: Platform, plan_len: usize, outcomes: &[bool]) -> Result<Vec<usize>, String> {
    let mut tried = Vec::new();
    let mut next = 0;
    let mut last = None;
    loop {
        match launch_step(platform, plan_len, next, last) {
            LaunchStep::Spawn(i) => {
                tried.push(i);
                last = Some(if outcomes[i] { Spawned::Started } else { Spawned::Failed(format!("cannot start {}", i)) });
                next = i + 1;
            }
            LaunchStep::Done => return Ok(tried),
            LaunchStep::Fail(e) => return Err(e),
        }
    }
}

#[test]
fn terminals_are_tried_until_one_starts() {
    assert_eq!(run_launch(Platform::Linux, 5, &[false, false, true, true, true]), Ok(vec![0, 1, 2]));
    assert_eq!(
        run_launch(Platform::Linux, 5, &[false; 5]),
        Err("No supported terminal emulator found".to_string())
    );
    assert_eq!(run_launch(Platform::Windows, 1, &[true]), Ok(vec![0]));
    assert_eq!(run_launch(Platform::MacOs, 1, &[false]), Err("cannot start 0".to_string()));
}

#[test]
fn creation_stamps_at_a_given_offset() {
    assert_eq!(stamp_at(0, None), "1970-01-01 00:00");
    assert_eq!(stamp_at(0, Some(0)), "1970-01-01 00:00");
    assert_eq!(stamp_at(0, Some(3600)), "1970-01-01 01:00");
    assert_eq!(stamp_at(0, Some(-93_599)), "1969-12-30 22:00");
    assert_eq!(stamp_at(253_402_300_799, None), "9999-12-31 23:59");
    assert_eq!(stamp_at(253_402_297_199, Some(3600)), "9999-12-31 23:59");
    assert_eq!(stamp_at(253_402_300_799, Some(-7200)), "9999-12-31 21:59");
}
