use siu::error::SiuError;
use siu::files::{
    format_modified, format_permissions, modified_label, SiuDir, SiuFileInfo, SiuMeta,
    PREVIEW_LIMIT,
};

fn file_meta(size: u64) -> SiuMeta {
    SiuMeta { is_file: true, is_dir: false, size, mode: 0o644, modified: Some(0) }
}

fn dir_meta() -> SiuMeta {
    SiuMeta { is_file: false, is_dir: true, size: 4096, mode: 0o755, modified: None }
}

fn other_meta() -> SiuMeta {
    SiuMeta { is_file: false, is_dir: false, size: 0, mode: 0o777, modified: None }
}

fn names(dir: &SiuDir) -> Vec<String> {
    let mut out = Vec::new();
    for e in dir.dirs.iter() {
        out.push(e.name.clone());
    }
    out
}

#[test]
fn permissions_of_a_directory_with_mode_755() {
    assert_eq!(format_permissions(0o755, true), "drwxr-xr-x");
}

#[test]
fn permissions_of_a_file_with_mode_644() {
    assert_eq!(format_permissions(0o644, false), "-rw-r--r--");
}

#[test]
fn permissions_without_any_bit() {
    assert_eq!(format_permissions(0, false), "----------");
    assert_eq!(format_permissions(0, true), "d---------");
}

#[test]
fn permissions_with_every_bit() {
    assert_eq!(format_permissions(0o777, false), "-rwxrwxrwx");
}

#[test]
fn permissions_look_at_the_low_nine_bits_only() {
    assert_eq!(format_permissions(0o100640, false), "-rw-r-----");
    assert_eq!(format_permissions(0o4001, false), "---------x");
}

#[test]
fn permissions_take_each_bit_by_itself() {
    assert_eq!(format_permissions(0o400, false), "-r--------");
    assert_eq!(format_permissions(0o200, false), "--w-------");
    assert_eq!(format_permissions(0o100, false), "---x------");
    assert_eq!(format_permissions(0o040, false), "----r-----");
    assert_eq!(format_permissions(0o020, false), "-----w----");
    assert_eq!(format_permissions(0o010, false), "------x---");
    assert_eq!(format_permissions(0o004, false), "-------r--");
    assert_eq!(format_permissions(0o002, false), "--------w-");
    assert_eq!(format_permissions(0o001, false), "---------x");
}

#[test]
fn modified_time_at_the_epoch_in_utc() {
    assert_eq!(format_modified(Some(0), 0), "1970-01-01 00:00:00");
}

#[test]
fn modified_time_east_and_west_of_utc() {
    assert_eq!(format_modified(Some(0), 3600), "1970-01-01 01:00:00");
    assert_eq!(format_modified(Some(0), -3600), "1969-12-31 23:00:00");
}

#[test]
fn modified_time_of_a_known_day() {
    assert_eq!(format_modified(Some(1431648000), 0), "2015-05-15 00:00:00");
    assert_eq!(format_modified(Some(1431648000 + 3661), 0), "2015-05-15 01:01:01");
}

#[test]
fn modified_time_before_the_epoch() {
    assert_eq!(format_modified(Some(-1), 0), "1969-12-31 23:59:59");
}

#[test]
fn modified_time_that_is_not_known() {
    assert_eq!(format_modified(None, 0), "N/A");
    assert_eq!(format_modified(None, 7200), "N/A");
}

#[test]
fn modified_time_that_cannot_be_written() {
    assert_eq!(format_modified(Some(i64::MAX), 0), "N/A");
    assert_eq!(format_modified(Some(i64::MIN), 0), "N/A");
    assert_eq!(format_modified(Some(0), 86_400), "N/A");
    assert_eq!(format_modified(Some(0), -86_400), "N/A");
}

#[test]
fn modified_time_at_the_ends_of_what_can_be_written() {
    assert_eq!(format_modified(Some(8210266876799), 0), "+262142-12-31 23:59:59");
    assert_eq!(format_modified(Some(8210266876800), 0), "N/A");
    assert_eq!(format_modified(Some(-8334601228800), 0), "-262143-01-01 00:00:00");
    assert_eq!(format_modified(Some(-8334601228801), 0), "N/A");
    assert_eq!(format_modified(Some(8210266876799), 86_399).len(), 22);
    assert_eq!(format_modified(Some(-8334601228800), -86_399).len(), 22);
    assert_eq!(format_modified(Some(253402300799), 0), "9999-12-31 23:59:59");
    assert_eq!(format_modified(Some(253402300800), 0), "+10000-01-01 00:00:00");
    assert_eq!(format_modified(Some(-62167219201), 0), "-0001-12-31 23:59:59");
}

#[test]
fn label_of_a_written_time_is_the_time() {
    assert_eq!(modified_label(Some(String::from("2015-05-15 00:00:00"))), "2015-05-15 00:00:00");
    assert_eq!(modified_label(None), "N/A");
}

#[test]
fn entry_is_named_by_the_last_component() {
    let info = SiuFileInfo::new(String::from("/home/mikel/notes.txt"), file_meta(12));
    assert_eq!(info.name, "notes.txt");
    assert_eq!(info.path, "/home/mikel/notes.txt");
    assert!(info.is_file);
    assert_eq!(info.meta.unwrap().size, 12);
}

#[test]
fn entry_of_a_directory_is_no_file() {
    let info = SiuFileInfo::new(String::from("/home/mikel/"), dir_meta());
    assert_eq!(info.name, "mikel");
    assert!(!info.is_file);
}

#[test]
fn entry_without_a_last_component_has_no_name() {
    assert_eq!(SiuFileInfo::new(String::from("/"), dir_meta()).name, "NO DATA");
    assert_eq!(SiuFileInfo::new(String::from("/home/.."), dir_meta()).name, "NO DATA");
    assert_eq!(SiuFileInfo::new(String::new(), dir_meta()).name, "NO DATA");
}

#[test]
fn listing_puts_the_directory_first_and_sorts_the_files() {
    let dir = SiuDir::new(
        String::from("/start"),
        vec![
            (String::from("/start/b.txt"), file_meta(1)),
            (String::from("/start/A"), dir_meta()),
            (String::from("/start/a.txt"), file_meta(2)),
        ],
    );
    assert_eq!(names(&dir), vec!["A", "a.txt", "b.txt"]);
    assert_eq!(dir.path, "/start");
    assert!(dir.content.is_none());
    assert!(!dir.dirs[0].is_file);
    assert!(dir.dirs[1].is_file);
    assert!(dir.dirs[2].is_file);
}

#[test]
fn listing_compares_names_without_regard_to_case() {
    let dir = SiuDir::new(
        String::from("/d"),
        vec![
            (String::from("/d/Zeta"), file_meta(1)),
            (String::from("/d/alpha"), file_meta(1)),
            (String::from("/d/Beta"), file_meta(1)),
            (String::from("/d/gamma"), file_meta(1)),
        ],
    );
    assert_eq!(names(&dir), vec!["alpha", "Beta", "gamma", "Zeta"]);
}

#[test]
fn listing_puts_every_directory_before_every_file() {
    let dir = SiuDir::new(
        String::from("/d"),
        vec![
            (String::from("/d/a"), file_meta(1)),
            (String::from("/d/z"), dir_meta()),
            (String::from("/d/b"), file_meta(1)),
            (String::from("/d/y"), dir_meta()),
        ],
    );
    assert_eq!(names(&dir), vec!["y", "z", "a", "b"]);
}

#[test]
fn listing_keeps_the_read_order_of_names_that_differ_in_case_only() {
    let first = SiuDir::new(
        String::from("/d"),
        vec![
            (String::from("/d/readme"), file_meta(1)),
            (String::from("/d/README"), file_meta(2)),
            (String::from("/d/ReadMe"), file_meta(3)),
        ],
    );
    assert_eq!(names(&first), vec!["readme", "README", "ReadMe"]);
    let second = SiuDir::new(
        String::from("/d"),
        vec![
            (String::from("/d/ReadMe"), file_meta(3)),
            (String::from("/d/README"), file_meta(2)),
            (String::from("/d/readme"), file_meta(1)),
        ],
    );
    assert_eq!(names(&second), vec!["ReadMe", "README", "readme"]);
}

#[test]
fn listing_puts_a_name_before_the_names_it_begins() {
    let dir = SiuDir::new(
        String::from("/d"),
        vec![
            (String::from("/d/abc"), file_meta(1)),
            (String::from("/d/ab"), file_meta(1)),
            (String::from("/d/a"), file_meta(1)),
        ],
    );
    assert_eq!(names(&dir), vec!["a", "ab", "abc"]);
}

#[test]
fn listing_leaves_out_what_is_neither_file_nor_directory() {
    let dir = SiuDir::new(
        String::from("/d"),
        vec![
            (String::from("/d/socket"), other_meta()),
            (String::from("/d/file"), file_meta(1)),
            (String::from("/d/link"), other_meta()),
        ],
    );
    assert_eq!(names(&dir), vec!["file"]);
}

#[test]
fn listing_of_nothing_is_empty() {
    let dir = SiuDir::new(String::from("/empty"), Vec::new());
    assert!(dir.dirs.is_empty());
    assert_eq!(dir.path, "/empty");
    assert!(dir.content.is_none());
}

#[test]
fn listing_keeps_every_entry_it_was_given() {
    let mut entries = Vec::new();
    for i in 0..50u64 {
        let name = format!("/d/f{}", (i * 37) % 50);
        entries.push((name, file_meta(i)));
    }
    let dir = SiuDir::new(String::from("/d"), entries);
    assert_eq!(dir.dirs.len(), 50);
    for k in 1..dir.dirs.len() {
        assert!(dir.dirs[k - 1].name.to_lowercase() <= dir.dirs[k].name.to_lowercase());
    }
}

#[test]
fn listing_keeps_the_metadata_with_the_entry() {
    let dir = SiuDir::new(
        String::from("/d"),
        vec![(String::from("/d/b"), file_meta(22)), (String::from("/d/a"), file_meta(11))],
    );
    assert_eq!(dir.dirs[0].name, "a");
    assert_eq!(dir.dirs[0].path, "/d/a");
    assert_eq!(dir.dirs[0].meta.unwrap().size, 11);
    assert_eq!(dir.dirs[1].meta.unwrap().size, 22);
}

#[test]
fn printed_listing_has_one_name_to_a_line() {
    let dir = SiuDir::new(
        String::from("/d"),
        vec![(String::from("/d/b"), file_meta(1)), (String::from("/d/a"), dir_meta())],
    );
    assert_eq!(dir.print(), "a\nb\n");
    assert_eq!(SiuDir::new(String::from("/d"), Vec::new()).print(), "");
}

#[test]
fn preview_holds_the_text_of_the_file() {
    let mut dir = SiuDir::new(String::from("/d"), vec![(String::from("/d/a"), file_meta(1))]);
    dir.read_dir(String::from("/d/a"), b"hello\nworld".to_vec());
    assert_eq!(dir.content.as_deref(), Some("hello\nworld"));
    assert!(dir.dirs.is_empty());
    assert_eq!(dir.path, "/d/a");
}

#[test]
fn preview_has_no_nul_character() {
    let mut dir = SiuDir::new(String::from("/d"), Vec::new());
    dir.read_dir(String::from("/d/bin"), vec![0, b'a', 0, 0, b'b', 0]);
    assert_eq!(dir.content.as_deref(), Some("ab"));
}

#[test]
fn preview_replaces_what_is_not_text() {
    let mut dir = SiuDir::new(String::from("/d"), Vec::new());
    dir.read_dir(String::from("/d/bin"), vec![b'a', 0xff, b'b']);
    assert_eq!(dir.content.as_deref(), Some("a\u{fffd}b"));
}

#[test]
fn preview_looks_at_the_first_bytes_only() {
    let mut dir = SiuDir::new(String::from("/d"), Vec::new());
    let mut bytes = vec![b'x'; PREVIEW_LIMIT];
    bytes.extend_from_slice(b"tail");
    dir.read_dir(String::from("/d/long"), bytes);
    let text = dir.content.unwrap();
    assert_eq!(text.chars().count(), PREVIEW_LIMIT);
    assert!(text.chars().all(|c| c == 'x'));
}

#[test]
fn preview_of_bytes_that_are_no_text_is_no_longer_than_the_limit() {
    let mut dir = SiuDir::new(String::from("/d"), Vec::new());
    dir.read_dir(String::from("/d/junk"), vec![0xff; 3 * PREVIEW_LIMIT]);
    let text = dir.content.unwrap();
    assert_eq!(text.chars().count(), PREVIEW_LIMIT);
    assert!(!text.contains('\0'));
}

#[test]
fn preview_of_an_empty_file_is_empty() {
    let mut dir = SiuDir::new(String::from("/d"), Vec::new());
    dir.read_dir(String::from("/d/none"), Vec::new());
    assert_eq!(dir.content.as_deref(), Some(""));
}

#[test]
fn preview_limit_is_two_thousand() {
    assert_eq!(PREVIEW_LIMIT, 2000);
}

#[test]
fn errors_describe_themselves() {
    assert_eq!(SiuError::NotReadable.message(), "not readable");
    assert_eq!(SiuError::NoParent.message(), "no parent directory");
    assert_ne!(SiuError::NotReadable, SiuError::NoParent);
}
