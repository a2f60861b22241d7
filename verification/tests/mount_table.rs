//! Reading the mount table.

use fs_quota::mtab::{parse_chars, parse_line, read_mtab, MountRecord};
use fs_quota::text::{chars_of, is_whitespace, starts_with, string_of};

fn local(device: &str, directory: &str, filesystem_type: &str) -> MountRecord {
    MountRecord {
        host: None,
        device: device.to_string(),
        directory: directory.to_string(),
        filesystem_type: filesystem_type.to_string(),
    }
}

fn remote(host: &str, device: &str, directory: &str, filesystem_type: &str) -> MountRecord {
    MountRecord {
        host: Some(host.to_string()),
        device: device.to_string(),
        directory: directory.to_string(),
        filesystem_type: filesystem_type.to_string(),
    }
}

/// The same rules written with the standard library's own string functions.
fn expected_table(text: &str) -> Vec<MountRecord> {
    let mut result = Vec::new();
    for raw in text.split('\n') {
        let line = raw.trim();
        if line.is_empty() || line.starts_with('#') {
            continue;
        }
        let words: Vec<&str> = line.split_whitespace().collect();
        if words.len() < 3 || !words[1].starts_with('/') {
            continue;
        }
        if words[2].starts_with("nfs") {
            if !words[0].contains(':') {
                continue;
            }
            let mut parts = words[0].splitn(2, ':');
            let host = parts.next().unwrap();
            let path = parts.next().unwrap();
            result.push(remote(host, path, words[1], words[2]));
        } else {
            result.push(local(words[0], words[1], words[2]));
        }
    }
    result
}

#[test]
fn a_plain_line_is_one_record() {
    assert_eq!(parse_line("/dev/sda1 / ext4 rw 0 1"), Some(local("/dev/sda1", "/", "ext4")));
    assert_eq!(read_mtab("/dev/sda1 / ext4 rw 0 1\n"), vec![local("/dev/sda1", "/", "ext4")]);
}

#[test]
fn three_fields_are_enough() {
    assert_eq!(parse_line("/dev/sda1 /home xfs"), Some(local("/dev/sda1", "/home", "xfs")));
}

#[test]
fn fewer_than_three_fields_are_skipped() {
    assert_eq!(parse_line("/dev/sda1 /home"), None);
    assert_eq!(parse_line("/dev/sda1"), None);
    assert_eq!(read_mtab("/dev/sda1 /home\n/dev/sda1\n"), Vec::<MountRecord>::new());
}

#[test]
fn blank_lines_are_skipped() {
    assert_eq!(parse_line(""), None);
    assert_eq!(parse_line("   \t  "), None);
    assert_eq!(read_mtab(""), Vec::<MountRecord>::new());
    assert_eq!(read_mtab("\n\n   \n\t\n"), Vec::<MountRecord>::new());
    assert_eq!(
        read_mtab("\n/dev/sda1 / ext4\n\n\n/dev/sda2 /home ext4\n\n"),
        vec![local("/dev/sda1", "/", "ext4"), local("/dev/sda2", "/home", "ext4")]
    );
}

#[test]
fn comment_lines_are_skipped() {
    assert_eq!(parse_line("# /dev/sda1 / ext4"), None);
    assert_eq!(parse_line("#/dev/sda1 / ext4 rw"), None);
    assert_eq!(parse_line("   \t# /dev/sda1 / ext4"), None);
    assert_eq!(
        read_mtab("# first\n/dev/sda1 / ext4\n  # second\n"),
        vec![local("/dev/sda1", "/", "ext4")]
    );
}

#[test]
fn a_hash_inside_a_line_is_no_comment() {
    assert_eq!(parse_line("/dev/#1 /# ext4#"), Some(local("/dev/#1", "/#", "ext4#")));
    assert_eq!(parse_line("/dev/sda1 / ext4 # rw"), Some(local("/dev/sda1", "/", "ext4")));
}

#[test]
fn nfs_lines_are_split_at_the_first_colon() {
    assert_eq!(
        parse_line("fileserver:/export /mnt/nfs nfs4 rw"),
        Some(remote("fileserver", "/export", "/mnt/nfs", "nfs4"))
    );
    assert_eq!(
        parse_line("host:/a:b:c /mnt nfs"),
        Some(remote("host", "/a:b:c", "/mnt", "nfs"))
    );
    assert_eq!(parse_line(":/export /mnt nfs"), Some(remote("", "/export", "/mnt", "nfs")));
    assert_eq!(parse_line("host: /mnt nfs"), Some(remote("host", "", "/mnt", "nfs")));
    assert_eq!(parse_line(": /mnt nfsd"), Some(remote("", "", "/mnt", "nfsd")));
}

#[test]
fn nfs_lines_without_a_colon_are_skipped() {
    assert_eq!(parse_line("fileserver /mnt/nfs nfs4 rw"), None);
    assert_eq!(parse_line("/export /mnt/nfs nfs rw"), None);
    assert_eq!(
        read_mtab("fileserver /mnt/nfs nfs4 rw\n/dev/sda1 / ext4\n"),
        vec![local("/dev/sda1", "/", "ext4")]
    );
}

#[test]
fn a_colon_means_nothing_for_other_types() {
    assert_eq!(
        parse_line("host:/export /mnt cifs"),
        Some(local("host:/export", "/mnt", "cifs"))
    );
    assert_eq!(parse_line("a:b /mnt xnfs"), Some(local("a:b", "/mnt", "xnfs")));
}

#[test]
fn lines_with_a_relative_mount_point_are_skipped() {
    assert_eq!(parse_line("/dev/sda5 none swap sw 0 0"), None);
    assert_eq!(parse_line("/dev/sda1 home ext4"), None);
    assert_eq!(
        read_mtab("/dev/sda5 none swap sw 0 0\n/dev/sda1 / ext4\n"),
        vec![local("/dev/sda1", "/", "ext4")]
    );
}

#[test]
fn every_record_has_an_absolute_mount_point() {
    let table = "a /x t\nb y t\nc /z/w t\nh:/p q nfs\nh:/p /q nfs\n";
    let records = read_mtab(table);
    assert_eq!(records.len(), 3);
    for record in &records {
        assert!(record.directory.starts_with('/'));
    }
}

#[test]
fn any_white_space_separates_fields() {
    assert_eq!(
        parse_line("\t/dev/sda1\t\t/home   ext4\u{a0}rw\r"),
        Some(local("/dev/sda1", "/home", "ext4"))
    );
    assert_eq!(
        parse_line("/dev/sda1\u{2003}/home\u{3000}ext4"),
        Some(local("/dev/sda1", "/home", "ext4"))
    );
    assert_eq!(
        parse_line("/dev/sda1\u{b}/home\u{c}ext4\u{85}rw"),
        Some(local("/dev/sda1", "/home", "ext4"))
    );
}

#[test]
fn fields_keep_characters_beyond_ascii() {
    assert_eq!(
        parse_line("/dev/mapper/données /mnt/größe ext4"),
        Some(local("/dev/mapper/données", "/mnt/größe", "ext4"))
    );
    assert_eq!(
        parse_line("сервер:/экспорт /мнт nfs4"),
        Some(remote("сервер", "/экспорт", "/мнт", "nfs4"))
    );
}

#[test]
fn records_keep_the_order_of_their_lines() {
    let table = "/dev/a /a ext4\n/dev/b /b ext4\n/dev/c /a ext4\n";
    assert_eq!(
        read_mtab(table),
        vec![local("/dev/a", "/a", "ext4"), local("/dev/b", "/b", "ext4"), local("/dev/c", "/a", "ext4")]
    );
}

#[test]
fn the_last_line_needs_no_line_feed() {
    assert_eq!(
        read_mtab("/dev/a /a ext4\n/dev/b /b xfs"),
        vec![local("/dev/a", "/a", "ext4"), local("/dev/b", "/b", "xfs")]
    );
}

#[test]
fn carriage_returns_end_no_field() {
    assert_eq!(
        read_mtab("/dev/a /a ext4\r\n/dev/b /b xfs\r\n"),
        vec![local("/dev/a", "/a", "ext4"), local("/dev/b", "/b", "xfs")]
    );
}

#[test]
fn a_line_feed_splits_what_parse_line_would_join() {
    assert_eq!(parse_line("/dev/a\n/a\next4"), Some(local("/dev/a", "/a", "ext4")));
    assert_eq!(read_mtab("/dev/a\n/a\next4"), Vec::<MountRecord>::new());
}

#[test]
fn a_skipped_line_leaves_no_trace() {
    let before = "/dev/a /a ext4";
    let after = "h:/e /n nfs\n/dev/b /b xfs";
    let with_none = format!("{}\n{}", before, after);
    for skipped in ["", "   ", "# note", "one two", "server /mnt nfs4", "/dev/x rel ext4"] {
        let with_line = format!("{}\n{}\n{}", before, skipped, after);
        assert_eq!(read_mtab(&with_line), read_mtab(&with_none));
    }
}

#[test]
fn joined_tables_are_read_one_after_the_other() {
    let a = "/dev/a /a ext4\n# c\nh:/e /n nfs";
    let b = "\n/dev/b /b xfs\nshort line\n";
    let mut expected = read_mtab(a);
    expected.extend(read_mtab(b));
    assert_eq!(read_mtab(&format!("{}\n{}", a, b)), expected);
}

#[test]
fn parse_chars_agrees_with_parse_line() {
    for line in ["/dev/sda1 / ext4 rw 0 1", "h:/e /n nfs", "# c", "", "a b c", "a /b c d e f"] {
        let chars: Vec<char> = line.chars().collect();
        assert_eq!(parse_chars(&chars), parse_line(line));
    }
}

#[test]
fn read_mtab_agrees_with_the_standard_string_functions() {
    let samples = [
        "",
        "\n",
        "/dev/sda1 / ext4 rw 0 1",
        "/dev/sda1 / ext4 rw 0 1\n",
        "# comment\n\n/dev/sda1 / ext4 rw\nfileserver:/export /mnt/nfs nfs4 rw\n",
        "sysfs /sys sysfs rw,nosuid,nodev,noexec,relatime 0 0\nproc /proc proc rw 0 0\n",
        "server /mnt nfs\nserver:/x /mnt nfs\n:/x /mnt nfs\nserver: /mnt nfs\n",
        "  leading /space ext4\ntrailing /space ext4   \n\t\ttabs\t/tabs\txfs\t\n",
        "a b c\na /b c\n/a b c\n#a /b c\n a /b\n",
        "x:/y:/z /q nfs4\r\nx /q nfs4\r\n/dev/q /q ext3\r\n",
        "\u{a0}/dev/a\u{2000}/a\u{3000}ext4\u{85}\n\u{1680}#\u{2028}/a /b c\u{2029}/d /e f\n",
        "/dev/é /ü/ñ ext4\nхост:/путь /точка nfs\n",
        "none /dev/shm tmpfs rw 0 0\n/dev/sda5 none swap sw 0 0\n",
        "\n\n\n",
        "one\ntwo words\nthree /little words\n",
    ];
    for sample in samples {
        assert_eq!(read_mtab(sample), expected_table(sample), "table: {:?}", sample);
    }
}

#[test]
fn is_whitespace_agrees_with_the_standard_library_on_every_character() {
    for code in 0..=0x10ffffu32 {
        if let Some(c) = char::from_u32(code) {
            assert_eq!(is_whitespace(c), c.is_whitespace(), "U+{:04X}", code);
        }
    }
}

#[test]
fn is_whitespace_knows_the_common_separators() {
    for c in [' ', '\t', '\n', '\r', '\u{b}', '\u{c}', '\u{85}', '\u{a0}', '\u{2028}', '\u{3000}'] {
        assert!(is_whitespace(c));
    }
    for c in ['a', '/', '#', ':', '\0', '\u{8}', '\u{e}', '\u{200b}', '\u{feff}'] {
        assert!(!is_whitespace(c));
    }
}

#[test]
fn chars_and_strings_convert_both_ways() {
    assert_eq!(chars_of(""), Vec::<char>::new());
    assert_eq!(chars_of("a/é✓"), vec!['a', '/', 'é', '✓']);
    assert_eq!(string_of(&[]), "");
    assert_eq!(string_of(&['a', '/', 'é', '✓']), "a/é✓");
    for s in ["", "x", "/dev/sda1", "naïve ✓ text\n"] {
        assert_eq!(string_of(&chars_of(s)), s);
    }
}

#[test]
fn starts_with_compares_characters() {
    assert!(starts_with("", ""));
    assert!(starts_with("abc", ""));
    assert!(starts_with("abc", "ab"));
    assert!(starts_with("abc", "abc"));
    assert!(!starts_with("abc", "abcd"));
    assert!(!starts_with("abc", "b"));
    assert!(!starts_with("", "a"));
    assert!(starts_with("é/x", "é"));
    // "é" and "è" share their first byte, but are different characters.
    assert!(!starts_with("é", "è"));
    for (s, p) in [("/mnt/nfs/data", "/mnt/nfs"), ("/mnt", "/mnt/nfs"), ("/a", "/"), ("x", "/")] {
        assert_eq!(starts_with(s, p), s.starts_with(p));
    }
}
