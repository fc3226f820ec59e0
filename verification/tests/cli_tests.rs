use alloy_control::cli::{
    build_seconds, check_run, command_summary, format_build_time, format_size, round_div,
    show_frame, status_icon, to_nearest_double, AlloyClient, AlloyConfig, ConfigAction, Tint,
    WatchFrame,
};
use alloy_control::models::{Job, JobStatus, LogStream, SourceType};

fn reference_size(bytes: usize) -> String {
    const KB: usize = 1024;
    const MB: usize = KB * 1024;
    const GB: usize = MB * 1024;
    if bytes >= GB {
        format!("{:.2} GB", bytes as f64 / GB as f64)
    } else if bytes >= MB {
        format!("{:.2} MB", bytes as f64 / MB as f64)
    } else if bytes >= KB {
        format!("{:.2} KB", bytes as f64 / KB as f64)
    } else {
        format!("{bytes} bytes")
    }
}

#[test]
fn sizes_read_as_expected() {
    assert_eq!(format_size(0), "0 bytes");
    assert_eq!(format_size(512), "512 bytes");
    assert_eq!(format_size(1023), "1023 bytes");
    assert_eq!(format_size(1024), "1.00 KB");
    assert_eq!(format_size(1536), "1.50 KB");
    assert_eq!(format_size(1024 * 1024), "1.00 MB");
    assert_eq!(format_size(1024 * 1024 - 1), "1024.00 KB");
    assert_eq!(format_size(5 * 1024 * 1024 + 300 * 1024), "5.29 MB");
    assert_eq!(format_size(1024 * 1024 * 1024), "1.00 GB");
    assert_eq!(format_size(3 * 1024 * 1024 * 1024 / 2), "1.50 GB");
}

#[test]
fn sizes_agree_with_floating_point_formatting() {
    let mut samples: Vec<usize> = vec![
        0, 1, 1023, 1024, 1025, 1029, 1030, 1152, 1280, 1408, 2047, 2048, 10_000, 123_456,
        1_048_575, 1_048_576, 1_048_577, 1_179_648, 1_310_720, 987_654_321, 1_073_741_823,
        1_073_741_824, 1_207_959_552, 1_342_177_280, 5_000_000_000,
    ];
    // exact ties at every unit: odd multiples of an eighth of a hundredth
    for k in [10u32, 20, 30] {
        for odd in [1usize, 3, 5, 7, 9, 11, 13, 25, 27, 101, 1001] {
            samples.push(odd << (k - 3));
            samples.push((odd << (k - 3)) + 1);
            samples.push((odd << (k - 3)) - 1);
        }
    }
    if usize::BITS >= 64 {
        for shift in [40u32, 50, 52, 53, 54, 55, 60, 62, 63] {
            let base = 1usize << shift;
            for delta in [0usize, 1, 2, 3, 255, 256, 257, 511, 512, 513, 1023, 1024, 1025, 2047, 4095] {
                samples.push(base + delta);
                samples.push(base - delta - 1);
                samples.push(base / 3 * 2 + delta);
            }
        }
        samples.push(usize::MAX);
        samples.push(usize::MAX - 1023);
        samples.push(usize::MAX - 1024);
        // near an exact tie far above the precision of the significand
        let tie = 0x19usize << 57;
        for delta in 0..3000usize {
            samples.push(tie + delta);
            samples.push(tie - delta);
        }
    }
    let mut state: u64 = 0x9e3779b97f4a7c15;
    for _ in 0..20_000 {
        state ^= state << 13;
        state ^= state >> 7;
        state ^= state << 17;
        let shift = (state >> 58) as u32;
        samples.push((state >> shift) as usize);
    }
    for bytes in samples {
        assert_eq!(format_size(bytes), reference_size(bytes), "bytes {}", bytes);
    }
}

#[test]
fn doubles_round_to_even() {
    assert_eq!(to_nearest_double(0), 0);
    assert_eq!(to_nearest_double((1 << 53) - 1), (1 << 53) - 1);
    assert_eq!(to_nearest_double(1 << 53), 1 << 53);
    assert_eq!(to_nearest_double((1 << 53) + 1), 1 << 53);
    assert_eq!(to_nearest_double((1 << 53) + 2), (1 << 53) + 2);
    assert_eq!(to_nearest_double((1 << 53) + 3), (1 << 53) + 4);
    assert_eq!(to_nearest_double(u64::MAX), 1u128 << 64);
    for n in [(1u64 << 53) + 1, (1 << 60) + 12345, u64::MAX - 5, 1 << 63, (1 << 63) + 1024, (1 << 63) + 1025] {
        assert_eq!(to_nearest_double(n), (n as f64) as u128);
    }
    assert_eq!(round_div(5, 2), 2);
    assert_eq!(round_div(7, 2), 4);
    assert_eq!(round_div(9, 4), 2);
    assert_eq!(round_div(11, 4), 3);
    assert_eq!(round_div(10, 4), 2);
    assert_eq!(round_div(14, 4), 4);
    assert_eq!(round_div(0, 7), 0);
}

#[test]
fn build_times_read_as_expected() {
    assert_eq!(format_build_time(0), "0s");
    assert_eq!(format_build_time(45), "45s");
    assert_eq!(format_build_time(60), "1m 0s");
    assert_eq!(format_build_time(330), "5m 30s");
    assert_eq!(format_build_time(3600), "1h 0m 0s");
    assert_eq!(format_build_time(5025), "1h 23m 45s");
    assert_eq!(format_build_time(u64::MAX), format!("{}h 0m 15s", u64::MAX / 3600));
    assert_eq!(build_seconds(0), 0);
    assert_eq!(build_seconds(499), 0);
    assert_eq!(build_seconds(500), 1);
    assert_eq!(build_seconds(3_000), 3);
    assert_eq!(build_seconds(u64::MAX), u64::MAX / 1000 + 1);
}

#[test]
fn the_client_builds_its_urls() {
    let id = 0x550e8400_e29b_41d4_a716_446655440000u128;
    let client = AlloyClient::new("https://api.example", Some("k1"));
    assert_eq!(client.add_auth().as_deref(), Some("Bearer k1"));
    assert_eq!(
        client.get_stream_url(id),
        "wss://api.example/api/v1/jobs/550e8400-e29b-41d4-a716-446655440000/logs"
    );
    assert_eq!(client.list_jobs(None), "https://api.example/api/v1/jobs");
    assert_eq!(client.list_jobs(Some("failed")), "https://api.example/api/v1/jobs?status=failed");
    assert_eq!(
        client.job_url(id, "/cancel"),
        "https://api.example/api/v1/jobs/550e8400-e29b-41d4-a716-446655440000/cancel"
    );
    let plain = AlloyClient::new("http://localhost:3000", None);
    assert_eq!(plain.add_auth(), None);
    assert_eq!(
        plain.get_stream_url(id),
        "ws://localhost:3000/api/v1/jobs/550e8400-e29b-41d4-a716-446655440000/logs"
    );
    for base in ["http://a/http://b", "https://https://x", "ftp://x", "", "http:/", "xhttp://y"] {
        let expected = format!(
            "{}/api/v1/jobs/550e8400-e29b-41d4-a716-446655440000/logs",
            base.replace("http://", "ws://").replace("https://", "wss://")
        );
        assert_eq!(AlloyClient::new(base, None).get_stream_url(id), expected);
    }
}

#[test]
fn the_configuration_is_set_and_shown() {
    let mut config = AlloyConfig::default();
    assert_eq!(config.effective_url(None), "https://api.alloy-ci.dev/");
    assert!(!config.has_key(None));
    assert!(config.has_key(Some("env")));
    let line = config.apply(&ConfigAction::SetUrl { url: "http://x".into() });
    assert_eq!(line.as_deref(), Some("Updated API URL to: http://x"));
    let line = config.apply(&ConfigAction::SetKey { key: "secret".into() });
    assert_eq!(line.as_deref(), Some("Updated API key"));
    assert_eq!(config.apply(&ConfigAction::Show), None);
    assert_eq!(config.api_url.as_deref(), Some("http://x"));
    assert_eq!(config.api_key.as_deref(), Some("secret"));
    assert_eq!(config.effective_url(None), "http://x");
    assert_eq!(config.effective_url(Some("http://env")), "http://env");
    assert!(config.has_key(None));
}

#[test]
fn frames_are_shown_and_end_the_watch() {
    let out = show_frame(&WatchFrame::Log { stream: LogStream::Stdout, content: "hi".into() }, true);
    assert_eq!(out.lines, vec![(Tint::White, "hi\n".to_string())]);
    assert!(!out.ends);
    let out = show_frame(&WatchFrame::Log { stream: LogStream::Stderr, content: "".into() }, false);
    assert_eq!(out.lines, vec![(Tint::Yellow, "\n".to_string())]);

    let done = WatchFrame::Complete { status: "Completed".into(), exit_code: 0, build_millis: 3_000 };
    let out = show_frame(&done, false);
    assert!(out.ends);
    assert_eq!(
        out.lines,
        vec![
            (Tint::Green, "\n✓ Job Completed with exit code 0\n".to_string()),
            (Tint::White, "   Build time: 3s\n".to_string()),
        ]
    );
    let failed = WatchFrame::Complete { status: "Failed".into(), exit_code: -1, build_millis: 90_499 };
    let out = show_frame(&failed, false);
    assert_eq!(out.lines[0], (Tint::Red, "\n✗ Job Failed with exit code -1\n".to_string()));
    assert_eq!(out.lines[1].1, "   Build time: 1m 30s\n");
    for code in [i64::MIN, -10, 7, i64::MAX] {
        let frame = WatchFrame::Complete { status: "X".into(), exit_code: code, build_millis: 0 };
        assert_eq!(show_frame(&frame, false).lines[0].1, format!("\n✗ Job X with exit code {}\n", code));
    }

    let error = WatchFrame::Error { message: "\"Job not found\"".into() };
    let out = show_frame(&error, true);
    assert_eq!(out.lines, vec![(Tint::Red, "Error: \"Job not found\"\n".to_string())]);
    assert!(out.ends);
    assert!(!show_frame(&error, false).ends);
    let out = show_frame(&WatchFrame::Other, true);
    assert!(out.lines.is_empty() && !out.ends);

    assert!(check_run(&Some("x".into()), &None).is_ok());
    assert!(check_run(&None, &Some("build.sh".into())).is_ok());
    assert!(check_run(&Some("x".into()), &Some("y".into())).is_ok());
    assert_eq!(check_run(&None, &None), Err("Either a command or --script is required"));
}

#[test]
fn listings_show_a_summary_of_each_job() {
    let job = |command: &str| Job::with_command_at(1, 0, 1, command.into(), SourceType::Git, None);
    assert_eq!(command_summary(&job("make")), "make");
    assert_eq!(command_summary(&job("123456789012345678")), "123456789012345678");
    assert_eq!(command_summary(&job("1234567890123456789")), "123456789012345...");
    assert_eq!(command_summary(&job("ünïcödé çhàräctërs ârè fíne")), "ünïcödé çhàräct...");
    let script = Job::with_script_at(1, 0, 1, "a very long script text indeed".into(), SourceType::Git, None);
    assert_eq!(command_summary(&script), "[script]");
    let mut empty = job("x");
    empty.command = None;
    assert_eq!(command_summary(&empty), "-");
    assert_eq!(status_icon(JobStatus::Pending), "⏳");
    assert_eq!(status_icon(JobStatus::Running), "▶");
    assert_eq!(status_icon(JobStatus::Completed), "✓");
    assert_eq!(status_icon(JobStatus::Failed), "✗");
    assert_eq!(status_icon(JobStatus::Cancelled), "⊘");
}
