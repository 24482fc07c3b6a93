//! End-to-end checks of the collectors on concrete inputs.

use microfetch::colors::Colors;
use microfetch::desktop::get_desktop_info;
use microfetch::release::{get_os_pretty_name, get_system_info};
use microfetch::system::{
    get_memory_usage, get_root_disk_usage, get_shell, get_username_and_hostname,
};
use microfetch::unknown;
use microfetch::uptime::get_current;

fn plain() -> Colors {
    Colors::new(true)
}

#[test]
fn unknown_is_the_fallback_word() {
    assert_eq!(unknown(), b"Unknown".to_vec());
}

#[test]
fn pretty_name_quoted_value_is_stripped() {
    let content = b"NAME=\"Foo\"\nPRETTY_NAME=\"Foo Bar\"\nID=foo\n";
    assert_eq!(get_os_pretty_name(content), b"Foo Bar".to_vec());
}

#[test]
fn pretty_name_unquoted_value_is_kept() {
    let content = b"PRETTY_NAME=Foo\n";
    assert_eq!(get_os_pretty_name(content), b"Foo".to_vec());
}

#[test]
fn pretty_name_missing_line_gives_unknown() {
    let content = b"NAME=\"Foo\"\nID=foo\n";
    assert_eq!(get_os_pretty_name(content), b"Unknown".to_vec());
}

#[test]
fn pretty_name_empty_source_gives_unknown() {
    assert_eq!(get_os_pretty_name(b""), b"Unknown".to_vec());
}

#[test]
fn pretty_name_single_sided_quote_is_kept() {
    assert_eq!(get_os_pretty_name(b"PRETTY_NAME=\"Foo\n"), b"\"Foo".to_vec());
    assert_eq!(get_os_pretty_name(b"PRETTY_NAME=Foo\"\n"), b"Foo\"".to_vec());
}

#[test]
fn pretty_name_lone_quote_is_kept() {
    // A single quote character is both the first and the last byte, but a
    // pair needs at least two bytes.
    assert_eq!(get_os_pretty_name(b"PRETTY_NAME=\"\n"), b"\"".to_vec());
}

#[test]
fn pretty_name_final_line_without_newline_is_scanned() {
    assert_eq!(get_os_pretty_name(b"ID=foo\nPRETTY_NAME=\"Bar\""), b"Bar".to_vec());
}

#[test]
fn pretty_name_first_match_wins() {
    let content = b"PRETTY_NAME=\"First\"\nPRETTY_NAME=\"Second\"\n";
    assert_eq!(get_os_pretty_name(content), b"First".to_vec());
}

#[test]
fn pretty_name_empty_value() {
    assert_eq!(get_os_pretty_name(b"PRETTY_NAME=\n"), b"".to_vec());
    assert_eq!(get_os_pretty_name(b"PRETTY_NAME=\"\"\n"), b"".to_vec());
}

#[test]
fn memory_usage_halves() {
    let content = b"MemTotal:  16777216 kB\nMemFree:  123 kB\nMemAvailable:  8388608 kB\n";
    let line = get_memory_usage(content, &plain());
    assert_eq!(line, b"8.00 GiB / 16.00 GiB (50%)".to_vec());
}

#[test]
fn memory_usage_colored() {
    let content = b"MemTotal:  16777216 kB\nMemAvailable:  8388608 kB\n";
    let line = get_memory_usage(content, &Colors::new(false));
    assert_eq!(line, b"8.00 GiB / 16.00 GiB (\x1b[36m50%\x1b[0m)".to_vec());
}

#[test]
fn memory_usage_empty_source_is_all_zero() {
    let line = get_memory_usage(b"", &plain());
    assert_eq!(line, b"0.00 GiB / 0.00 GiB (0%)".to_vec());
}

#[test]
fn memory_usage_missing_available_counts_as_zero() {
    let content = b"MemTotal:  16777216 kB\n";
    let line = get_memory_usage(content, &plain());
    assert_eq!(line, b"16.00 GiB / 16.00 GiB (100%)".to_vec());
}

#[test]
fn memory_usage_available_beyond_total_saturates_to_zero() {
    let content = b"MemTotal:  1024 kB\nMemAvailable:  2048 kB\n";
    let line = get_memory_usage(content, &plain());
    assert_eq!(line, b"0.00 GiB / 0.00 GiB (0%)".to_vec());
}

#[test]
fn memory_usage_value_ends_at_first_non_digit() {
    let content = b"MemTotal:  2097152 kB\nMemAvailable:  1048576kB extra\n";
    let line = get_memory_usage(content, &plain());
    assert_eq!(line, b"1.00 GiB / 2.00 GiB (50%)".to_vec());
}

#[test]
fn uptime_one_of_each_unit() {
    assert_eq!(get_current(90061), b"1 day, 1 hour, 1 minute".to_vec());
}

#[test]
fn uptime_hours_only() {
    assert_eq!(get_current(7200), b"2 hours".to_vec());
}

#[test]
fn uptime_under_a_minute() {
    assert_eq!(get_current(30), b"less than a minute".to_vec());
}

#[test]
fn uptime_zero_seconds() {
    assert_eq!(get_current(0), b"less than a minute".to_vec());
}

#[test]
fn uptime_days_and_minutes_skip_zero_hours() {
    // 2 days and 5 minutes, zero hours: the zero component is omitted.
    assert_eq!(get_current(2 * 86400 + 5 * 60), b"2 days, 5 minutes".to_vec());
}

#[test]
fn uptime_plural_forms() {
    assert_eq!(
        get_current(2 * 86400 + 3 * 3600 + 4 * 60),
        b"2 days, 3 hours, 4 minutes".to_vec()
    );
}

#[test]
fn shell_path_takes_last_segment() {
    assert_eq!(get_shell(Some(b"/usr/bin/zsh".to_vec())), b"zsh".to_vec());
}

#[test]
fn shell_bare_name_is_kept() {
    assert_eq!(get_shell(Some(b"zsh".to_vec())), b"zsh".to_vec());
}

#[test]
fn shell_unset_gives_fallback() {
    assert_eq!(get_shell(None), b"unknown_shell".to_vec());
}

#[test]
fn shell_trailing_slash_gives_empty_name() {
    assert_eq!(get_shell(Some(b"/usr/bin/".to_vec())), b"".to_vec());
}

#[test]
fn desktop_strips_prefix_and_capitalizes_backend() {
    let line = get_desktop_info(Some(b"none+i3".to_vec()), Some(b"wayland".to_vec()));
    assert_eq!(line, b"i3 (Wayland)".to_vec());
}

#[test]
fn desktop_both_unset_gives_fallbacks() {
    assert_eq!(get_desktop_info(None, None), b"Unknown (Unknown)".to_vec());
}

#[test]
fn desktop_without_prefix_is_kept() {
    let line = get_desktop_info(Some(b"GNOME".to_vec()), Some(b"x11".to_vec()));
    assert_eq!(line, b"GNOME (X11)".to_vec());
}

#[test]
fn desktop_blank_backend_gives_fallback() {
    assert_eq!(
        get_desktop_info(Some(b"i3".to_vec()), Some(b"".to_vec())),
        b"i3 (Unknown)".to_vec()
    );
    assert_eq!(
        get_desktop_info(Some(b"i3".to_vec()), Some(b"  ".to_vec())),
        b"i3 (Unknown)".to_vec()
    );
}

#[test]
fn user_host_plain() {
    let line = get_username_and_hostname(
        Some(b"alice".to_vec()),
        Some(b"box".to_vec()),
        &plain(),
    );
    assert_eq!(line, b"alice@box".to_vec());
}

#[test]
fn user_host_colored() {
    let line = get_username_and_hostname(
        Some(b"alice".to_vec()),
        Some(b"box".to_vec()),
        &Colors::new(false),
    );
    assert_eq!(
        line,
        b"\x1b[33malice\x1b[31m@\x1b[32mbox\x1b[0m".to_vec()
    );
}

#[test]
fn user_host_fallbacks() {
    let line = get_username_and_hostname(None, None, &plain());
    assert_eq!(line, b"unknown_user@unknown_host".to_vec());
}

#[test]
fn system_info_joins_fields() {
    let line = get_system_info(
        Some(b"Linux".to_vec()),
        Some(b"6.6.1".to_vec()),
        Some(b"x86_64".to_vec()),
    );
    assert_eq!(line, b"Linux 6.6.1 (x86_64)".to_vec());
}

#[test]
fn system_info_substitutes_unknown() {
    let line = get_system_info(Some(b"Linux".to_vec()), None, None);
    assert_eq!(line, b"Linux Unknown (Unknown)".to_vec());
}

#[test]
fn disk_usage_half_used() {
    // 4096-byte blocks, 262144 blocks = 1 GiB total, half available.
    let line = get_root_disk_usage(4096, 262144, 131072, &plain());
    assert_eq!(line, b"0.50 GiB / 1.00 GiB (50%)".to_vec());
}

#[test]
fn disk_usage_zero_total_is_all_zero() {
    let line = get_root_disk_usage(0, 0, 0, &plain());
    assert_eq!(line, b"0.00 GiB / 0.00 GiB (0%)".to_vec());
}

#[test]
fn disk_usage_colored() {
    let line = get_root_disk_usage(4096, 262144, 0, &Colors::new(false));
    assert_eq!(line, b"1.00 GiB / 1.00 GiB (\x1b[36m100%\x1b[0m)".to_vec());
}
