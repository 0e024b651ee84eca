use httpdrs::meta::{push_manifest_line, scan_list, ManifestFlags, FLAG_ACCOUNT, FLAG_DISPATCH};
use httpdrs::reader::{parse_row, read_manifest_rows, sum_rows, CSVMetaReader, MetaRow};

fn lines(items: &[&str]) -> Vec<String> {
    items.iter().map(|s| s.to_string()).collect()
}

#[test]
fn scan_emits_fresh_names_and_stops_at_end() {
    let list = lines(&["---start---", "m1.csv", "", "  m2.csv  ", "---end---", "m3.csv"]);
    let mut flags = ManifestFlags::new();
    let (emits, stopped) = scan_list(&list, &mut flags, FLAG_ACCOUNT);
    assert_eq!(emits, vec!["m1.csv".to_string(), "m2.csv".to_string()]);
    assert!(stopped);
    assert_eq!(flags.get(&"m1.csv".to_string()), FLAG_ACCOUNT);
    assert_eq!(flags.get(&"m3.csv".to_string()), 0);
}

#[test]
fn second_pass_emits_nothing() {
    let list = lines(&["m1.csv", "m2.csv"]);
    let mut flags = ManifestFlags::new();
    let (first, stopped) = scan_list(&list, &mut flags, FLAG_DISPATCH);
    assert_eq!(first.len(), 2);
    assert!(!stopped);
    let (second, _) = scan_list(&list, &mut flags, FLAG_DISPATCH);
    assert!(second.is_empty());
}

#[test]
fn roles_do_not_share_flags() {
    let list = lines(&["m1.csv"]);
    let mut flags = ManifestFlags::new();
    let (by_account, _) = scan_list(&list, &mut flags, FLAG_ACCOUNT);
    assert_eq!(by_account.len(), 1);
    let (by_dispatch, _) = scan_list(&list, &mut flags, FLAG_DISPATCH);
    assert_eq!(by_dispatch.len(), 1);
    assert_eq!(flags.get(&"m1.csv".to_string()), FLAG_ACCOUNT | FLAG_DISPATCH);
    let (again, _) = scan_list(&list, &mut flags, FLAG_DISPATCH);
    assert!(again.is_empty());
}

#[test]
fn growing_list_only_emits_the_new_tail() {
    let mut flags = ManifestFlags::new();
    let (first, _) = scan_list(&lines(&["m1.csv"]), &mut flags, FLAG_ACCOUNT);
    assert_eq!(first, vec!["m1.csv".to_string()]);
    let (second, stopped) = scan_list(
        &lines(&["m1.csv", "m2.csv", "---end---"]),
        &mut flags,
        FLAG_ACCOUNT,
    );
    assert_eq!(second, vec!["m2.csv".to_string()]);
    assert!(stopped);
}

#[test]
fn push_line_appends_and_trims() {
    assert_eq!(push_manifest_line("", "m1.csv"), "m1.csv");
    assert_eq!(push_manifest_line("m1.csv", "m2.csv"), "m1.csv\nm2.csv");
    assert_eq!(push_manifest_line("m1.csv", "  "), "m1.csv");
}

#[test]
fn manifest_rows_parse_after_header() {
    let text = "sign,size,ext\nT1,1024,bin\nT2,12000000,tar\n";
    let rows = read_manifest_rows(text).unwrap();
    assert_eq!(rows.len(), 2);
    assert_eq!(rows[0].sign, "T1");
    assert_eq!(rows[0].size, 1024);
    assert_eq!(rows[0].ext, "bin");
    assert_eq!(rows[1].sign, "T2");
    assert_eq!(rows[1].size, 12_000_000);
}

#[test]
fn manifest_rows_reject_bad_size() {
    assert!(read_manifest_rows("sign,size,ext\nT1,notanumber,bin\n").is_none());
    assert!(read_manifest_rows("sign,size,ext\nT1,99999999999999999999999,bin\n").is_none());
}

#[test]
fn manifest_rows_reject_missing_columns() {
    assert!(read_manifest_rows("sign,size\nT1,1024\n").is_none());
}

#[test]
fn parse_row_reads_first_three_columns() {
    let row = vec![
        "T".to_string(),
        "42".to_string(),
        "bin".to_string(),
        "extra".to_string(),
    ];
    let m = parse_row(&row).unwrap();
    assert_eq!(m.sign, "T");
    assert_eq!(m.size, 42);
    assert_eq!(m.ext, "bin");
    assert!(parse_row(&vec!["T".to_string(), "x".to_string(), "bin".to_string()]).is_none());
}

#[test]
fn sums_count_rows_and_bytes() {
    let rows = vec![
        MetaRow { sign: "a".to_string(), size: 1024, ext: "bin".to_string() },
        MetaRow { sign: "b".to_string(), size: 12_000_000, ext: "tar".to_string() },
    ];
    assert_eq!(sum_rows(&rows), Some((2, 12_001_024)));
    let big = vec![
        MetaRow { sign: "a".to_string(), size: u64::MAX, ext: "bin".to_string() },
        MetaRow { sign: "b".to_string(), size: 1, ext: "bin".to_string() },
    ];
    assert_eq!(sum_rows(&big), None);
}

#[test]
fn csv_meta_reader_keeps_its_root() {
    let reader = CSVMetaReader::new("base/meta".to_string());
    assert_eq!(reader.meta_path, "base/meta");
}
