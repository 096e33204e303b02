use pika_installer::probe::{create_parition_struct, fs_probe_device, is_needs_mapper, parse_byte_count, PartitionProbe};
use pika_installer::text::{char_is_whitespace, contains_str, replace_all, shell_escape, starts_with_str, str_eq, str_lt, trim};

#[test]
fn replace_all_drops_every_mapper_prefix() {
    assert_eq!(replace_all("a/mapper/b/mapper/", "mapper/", ""), "a/b/");
    assert_eq!(replace_all("no match here", "mapper/", ""), "no match here");
}

#[test]
fn replace_all_takes_non_overlapping_matches_from_the_left() {
    assert_eq!(replace_all("aaa", "aa", "b"), "ba");
    assert_eq!(replace_all("aaaa", "aa", "b"), "bb");
    assert_eq!(replace_all("", "x", "y"), "");
}

#[test]
fn shell_escape_closes_and_reopens_quotes() {
    assert_eq!(shell_escape("it's"), "it'\"'\"'s");
    assert_eq!(shell_escape("plain"), "plain");
    assert_eq!(shell_escape("''"), "'\"'\"''\"'\"'");
}

#[test]
fn quote_free_values_pass_unchanged() {
    for s in ["", "plain", "with \"double\" quotes", "/dev/sda1", "$HOME `x`"] {
        assert_eq!(shell_escape(s), s);
    }
}

#[test]
fn shell_escape_round_trip() {
    for s in ["", "a'b", "'''", "x'\"'y", "no quotes"] {
        let escaped = shell_escape(s);
        assert_eq!(replace_all(&escaped, "'\"'\"'", "'"), s);
    }
}

#[test]
fn trim_drops_surrounding_whitespace() {
    assert_eq!(trim("  x y \n"), "x y");
    assert_eq!(trim("   "), "");
    assert_eq!(trim(""), "");
    assert_eq!(trim("\u{3000}wide\u{a0}"), "wide");
    assert_eq!(trim("  a\tb  "), "a\tb");
}

#[test]
fn whitespace_matches_std() {
    for c in [' ', '\t', '\n', '\u{85}', '\u{a0}', '\u{2028}', 'a', '0', '\u{200b}'] {
        assert_eq!(char_is_whitespace(c), c.is_whitespace());
    }
}

#[test]
fn string_comparisons() {
    assert!(str_lt("a", "b"));
    assert!(!str_lt("ab", "a"));
    assert!(str_lt("", "a"));
    assert!(!str_lt("", ""));
    assert!(str_lt("B", "a"));
    assert!(str_lt("/boot", "/boot/efi"));
    assert!(str_eq("same", "same"));
    assert!(!str_eq("same", "Same"));
    assert!(contains_str("subvol=@home", "subvol="));
    assert!(!contains_str("defaults", "subvol="));
    assert!(contains_str("anything", ""));
    assert!(starts_with_str("/home", "/"));
    assert!(!starts_with_str("home", "/"));
}

#[test]
fn needs_mapper_for_luks_lvm_and_bitlocker() {
    assert!(is_needs_mapper("crypto_LUKS"));
    assert!(is_needs_mapper("lvm2"));
    assert!(is_needs_mapper("BitLocker"));
    assert!(!is_needs_mapper("ext4"));
    assert!(!is_needs_mapper("LVM2_member"));
}

#[test]
fn probe_device_drops_mapper() {
    assert_eq!(fs_probe_device("mapper/luks-abc"), "luks-abc");
    assert_eq!(fs_probe_device("sda1"), "sda1");
}

#[test]
fn byte_counts() {
    assert_eq!(parse_byte_count("123\n"), 123);
    assert_eq!(parse_byte_count(" 500107862016 "), 500107862016);
    assert_eq!(parse_byte_count("0"), 0);
    assert_eq!(parse_byte_count(""), 0);
    assert_eq!(parse_byte_count("   "), 0);
    assert_eq!(parse_byte_count("abc"), 0);
    assert_eq!(parse_byte_count("12a"), 0);
    assert_eq!(parse_byte_count("1 2"), 0);
    assert_eq!(parse_byte_count("-5"), 0);
    assert_eq!(parse_byte_count("18446744073709551615"), u64::MAX);
    assert_eq!(parse_byte_count("18446744073709551616"), u64::MAX);
    assert_eq!(parse_byte_count("99999999999999999999x"), 0);
}

#[test]
fn byte_counts_written_as_floats() {
    assert_eq!(parse_byte_count("1.5e3"), 1500);
    assert_eq!(parse_byte_count("1536.9"), 1536);
    assert_eq!(parse_byte_count("500107862016.0\n"), 500107862016);
    assert_eq!(parse_byte_count(".5"), 0);
    assert_eq!(parse_byte_count("5."), 5);
    assert_eq!(parse_byte_count("1e3"), 1000);
    assert_eq!(parse_byte_count("1E3"), 1000);
    assert_eq!(parse_byte_count("1.e2"), 100);
    assert_eq!(parse_byte_count("2.5E-1"), 0);
    assert_eq!(parse_byte_count("123e-1"), 12);
    assert_eq!(parse_byte_count("12345e-2"), 123);
    assert_eq!(parse_byte_count("+42"), 42);
    assert_eq!(parse_byte_count("-0.5"), 0);
    assert_eq!(parse_byte_count("1e400"), u64::MAX);
    assert_eq!(parse_byte_count("0e999999999999999999999"), 0);
    assert_eq!(parse_byte_count("7e-99999999999999999999"), 0);
    assert_eq!(parse_byte_count("18446744073709551615.5"), u64::MAX);
}

#[test]
fn byte_counts_that_are_not_numbers() {
    assert_eq!(parse_byte_count("inf"), u64::MAX);
    assert_eq!(parse_byte_count("+Infinity"), u64::MAX);
    assert_eq!(parse_byte_count("-inf"), 0);
    assert_eq!(parse_byte_count("NaN"), 0);
    assert_eq!(parse_byte_count("."), 0);
    assert_eq!(parse_byte_count("e5"), 0);
    assert_eq!(parse_byte_count("1e"), 0);
    assert_eq!(parse_byte_count("1e+"), 0);
    assert_eq!(parse_byte_count("1.2.3"), 0);
    assert_eq!(parse_byte_count("0x10"), 0);
    assert_eq!(parse_byte_count("1_000"), 0);
    assert_eq!(parse_byte_count("+"), 0);
    assert_eq!(parse_byte_count("infinite"), 0);
}

#[test]
fn partition_from_probe() {
    let p = create_parition_struct(
        "sda3",
        PartitionProbe {
            part_fs: "crypto_LUKS".to_string(),
            part_uuid: "1234-ABCD".to_string(),
            has_encryption: true,
            part_size: 250000000000,
            part_size_pretty: "250 GB".to_string(),
        },
    );
    assert_eq!(p.part_name, "sda3");
    assert_eq!(p.part_fs, "crypto_LUKS");
    assert_eq!(p.part_uuid, "1234-ABCD");
    assert!(p.has_encryption);
    assert!(p.need_mapper);
    assert_eq!(p.part_size, 250000000000);
    assert_eq!(p.part_size_pretty, "250 GB");

    let q = create_parition_struct(
        "sda1",
        PartitionProbe {
            part_fs: "vfat".to_string(),
            part_uuid: String::new(),
            has_encryption: false,
            part_size: 1,
            part_size_pretty: "1 B".to_string(),
        },
    );
    assert!(!q.need_mapper);
}
