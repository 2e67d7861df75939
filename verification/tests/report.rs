use zip_info::batch::{collect_archives, Reading};
use zip_info::entry::{Archive, RawEntry};
use zip_info::error::ReportError;
use zip_info::keyed::KeyedList;
use zip_info::report::{OutputMode, Settings};
use zip_info::zip_info::{Args, StatArgs};

fn args(json: bool, pretty: bool, exclude: &str) -> Args {
    Args {
        arg_path: vec![String::from("a.zip"), String::from("b.zip")],
        flag_json: json,
        flag_pretty_json: pretty,
        flag_exclude: String::from(exclude),
        flag_compression_type: false,
        flag_original_size: false,
        flag_compressed_size: false,
        flag_compression_rate: false,
    }
}

fn read(path: &str, names: &[&str]) -> Reading {
    let mut entries = Vec::new();
    for name in names {
        entries.push(RawEntry {
            name: String::from(*name),
            compression: zip::CompressionMethod::Deflated,
            original_size: 100,
            compressed_size: 50,
            compression_rate: String::from("50.00%"),
            comment: String::new(),
        });
    }
    Reading::Read(Archive { path: String::from(path), entries })
}

#[test]
fn settings_take_the_mode_from_the_flags() {
    assert_eq!(Settings::new(&args(false, false, "")).unwrap().mode, OutputMode::Flat);
    assert_eq!(Settings::new(&args(true, false, "")).unwrap().mode, OutputMode::Json);
    assert_eq!(Settings::new(&args(false, true, "")).unwrap().mode, OutputMode::PrettyJson);
    assert_eq!(Settings::new(&args(false, false, "")).unwrap().stat_args, StatArgs::default());
}

#[test]
fn settings_refuse_two_structured_modes() {
    let refused = Settings::new(&args(true, true, "")).err().unwrap();
    assert_eq!(refused, ReportError::ConflictingOutputModes);
    assert_eq!(refused.message(), "compact and indented structured output exclude each other");
    let both = Settings::new(&args(true, true, "[")).err().unwrap();
    assert_eq!(both, ReportError::ConflictingOutputModes);
}

#[test]
fn settings_refuse_a_malformed_pattern() {
    let refused = Settings::new(&args(false, false, "[")).err().unwrap();
    assert_eq!(refused, ReportError::ConfigurationError { pattern: String::from("[") });
}

#[test]
fn report_of_two_archives_in_each_mode() {
    let flat = Settings::new(&args(false, false, "")).unwrap();
    assert_eq!(
        flat.write_report(vec![read("a.zip", &["foo.txt"]), read("b.zip", &[])]).unwrap(),
        "a.zip\n\tfoo.txt\n\t\tCompression type: Deflated\n\t\tOriginal size: 100\
         \n\t\tCompressed size: 50\n\t\tCompression_rate: 50.00%\nb.zip"
    );
    let json = Settings::new(&args(true, false, "")).unwrap();
    assert_eq!(
        json.write_report(vec![read("a.zip", &["foo.txt"]), read("b.zip", &[])]).unwrap(),
        "{\"a.zip\":{\"foo.txt\":{\"compressed_size\":50,\"compression_rate\":\"50.00%\",\
         \"compression_type\":\"Deflated\",\"original_size\":100}},\"b.zip\":{}}"
    );
    let pretty = Settings::new(&args(false, true, "foo.*")).unwrap();
    assert_eq!(
        pretty.write_report(vec![read("a.zip", &["foo.txt"])]).unwrap(),
        "{\n  \"a.zip\": {}\n}"
    );
}

#[test]
fn first_unreadable_archive_ends_the_run() {
    let settings = Settings::new(&args(false, false, "")).unwrap();
    let readings = vec![
        read("a.zip", &["foo.txt"]),
        Reading::Unreadable { path: String::from("b.zip"), cause: String::from("no such file") },
        Reading::EntryUnreadable { path: String::from("c.zip"), cause: String::from("bad record") },
    ];
    let failed = settings.write_report(readings).err().unwrap();
    assert_eq!(
        failed,
        ReportError::ArchiveUnreadable {
            path: String::from("b.zip"),
            cause: String::from("no such file"),
        }
    );
    assert_eq!(failed.message(), "cannot read archive b.zip: no such file");
}

#[test]
fn unreadable_entry_ends_the_run() {
    let readings = vec![
        Reading::EntryUnreadable { path: String::from("c.zip"), cause: String::from("bad record") },
        read("a.zip", &[]),
    ];
    let failed = collect_archives(readings).err().unwrap();
    assert_eq!(
        failed,
        ReportError::EntryDecodeError {
            path: String::from("c.zip"),
            cause: String::from("bad record"),
        }
    );
    assert_eq!(failed.message(), "cannot read an entry of archive c.zip: bad record");
}

#[test]
fn readable_archives_are_collected_in_order() {
    let archives = collect_archives(vec![read("b.zip", &[]), read("a.zip", &["x"])]).unwrap();
    assert_eq!(archives.len(), 2);
    assert_eq!(archives[0].path, "b.zip");
    assert_eq!(archives[1].path, "a.zip");
    assert_eq!(archives[1].entries[0].name, "x");
    assert!(collect_archives(Vec::new()).unwrap().is_empty());
}

#[test]
fn keyed_list_replaces_the_value_of_a_key() {
    let mut list: KeyedList<u64> = KeyedList::new();
    assert!(list.is_empty());
    list.insert(String::from("a"), 1);
    list.insert(String::from("b"), 2);
    list.insert(String::from("a"), 3);
    assert_eq!(list.len(), 2);
    assert_eq!(list.get("a"), Some(&3));
    assert_eq!(list.get("b"), Some(&2));
    assert_eq!(list.get("c"), None);
    let list = list.with(String::from("c"), 4);
    assert_eq!(list.get("c"), Some(&4));
    assert_eq!(list.as_slice().len(), 3);
    assert_eq!(list.as_slice()[0], (String::from("a"), 3));
    assert_eq!(list.as_slice()[1], (String::from("b"), 2));
    assert_eq!(list.as_slice()[2], (String::from("c"), 4));
}
