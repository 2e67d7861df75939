use zip_info::entry::{Archive, RawEntry};
use zip_info::exclusion::ExclusionFilter;
use zip_info::flat_writer::{
    info_for_archive_item, write_entry_report, MultiArchiveFlatWriter, ZipInfoFlatWriter,
};
use zip_info::json_writer::ZipObjectJsonWriter;
use zip_info::zip_info::{StatArgs, WriteZipInfo};

fn rate(original: u64, compressed: u64) -> String {
    format!("{:.2}%", (original as f64 - compressed as f64) / original as f64 * 100.0)
}

fn entry(name: &str, method: zip::CompressionMethod, original: u64, compressed: u64) -> RawEntry {
    RawEntry {
        name: String::from(name),
        compression: method,
        original_size: original,
        compressed_size: compressed,
        compression_rate: rate(original, compressed),
        comment: String::new(),
    }
}

fn no_exclusion() -> ExclusionFilter {
    ExclusionFilter::new("").unwrap()
}

#[test]
fn outline_of_two_archives() {
    let archives = vec![
        Archive {
            path: String::from("a.zip"),
            entries: vec![entry("foo.txt", zip::CompressionMethod::Deflated, 100, 50)],
        },
        Archive { path: String::from("b.zip"), entries: Vec::new() },
    ];
    let info = MultiArchiveFlatWriter::new(&archives)
        .write_zip_info(&no_exclusion(), &StatArgs::default());
    assert_eq!(
        info,
        "a.zip\n\tfoo.txt\n\t\tCompression type: Deflated\n\t\tOriginal size: 100\
         \n\t\tCompressed size: 50\n\t\tCompression_rate: 50.00%\nb.zip"
    );
}

#[test]
fn outline_of_an_archive_without_entries_is_its_path() {
    let entries: Vec<RawEntry> = Vec::new();
    let info = ZipInfoFlatWriter::new("empty.zip", &entries)
        .write_zip_info(&no_exclusion(), &StatArgs::default());
    assert_eq!(info, "empty.zip");
}

#[test]
fn outline_of_no_archive_is_empty() {
    let archives: Vec<Archive> = Vec::new();
    let info = MultiArchiveFlatWriter::new(&archives)
        .write_zip_info(&no_exclusion(), &StatArgs::default());
    assert_eq!(info, "");
}

#[test]
fn outline_of_one_archive_has_no_line_break_around_it() {
    let archives = vec![Archive { path: String::from("only.zip"), entries: Vec::new() }];
    let info = MultiArchiveFlatWriter::new(&archives)
        .write_zip_info(&no_exclusion(), &StatArgs::default());
    assert_eq!(info, "only.zip");
}

#[test]
fn outline_keeps_the_order_of_entries_and_repeats_names() {
    let entries = vec![
        entry("b.txt", zip::CompressionMethod::Stored, 1, 1),
        entry("a.txt", zip::CompressionMethod::Stored, 2, 2),
        entry("b.txt", zip::CompressionMethod::Stored, 3, 3),
    ];
    let selection = StatArgs {
        flag_compression_type: false,
        flag_original_size: true,
        flag_compressed_size: false,
        flag_compression_rate: false,
    };
    let info = ZipInfoFlatWriter::new("x.zip", &entries).write_zip_info(&no_exclusion(), &selection);
    assert_eq!(
        info,
        "x.zip\n\tb.txt\n\t\tOriginal size: 1\n\ta.txt\n\t\tOriginal size: 2\
         \n\tb.txt\n\t\tOriginal size: 3"
    );
}

#[test]
fn outline_leaves_out_what_the_pattern_matches() {
    let entries = vec![
        entry("foo.txt", zip::CompressionMethod::Stored, 1, 1),
        entry("bar.rs", zip::CompressionMethod::Stored, 2, 2),
        entry("baz.txt", zip::CompressionMethod::Stored, 3, 3),
    ];
    let selection = StatArgs {
        flag_compression_type: false,
        flag_original_size: false,
        flag_compressed_size: true,
        flag_compression_rate: false,
    };
    let literal = ExclusionFilter::new("foo.txt").unwrap();
    assert_eq!(
        ZipInfoFlatWriter::new("x.zip", &entries).write_zip_info(&literal, &selection),
        "x.zip\n\tbar.rs\n\t\tCompressed size: 2\n\tbaz.txt\n\t\tCompressed size: 3"
    );
    let wild = ExclusionFilter::new("*.txt").unwrap();
    assert_eq!(
        ZipInfoFlatWriter::new("x.zip", &entries).write_zip_info(&wild, &selection),
        "x.zip\n\tbar.rs\n\t\tCompressed size: 2"
    );
}

#[test]
fn outline_of_an_entry_with_a_comment() {
    let mut noted = entry("foo.txt", zip::CompressionMethod::Stored, 0, 0);
    noted.comment = String::from("first draft");
    assert_eq!(
        info_for_archive_item(&noted, &StatArgs::default()),
        "\n\tfoo.txt\n\t\tCompression type: Stored\n\t\tOriginal size: 0\
         \n\t\tCompressed size: 0\n\t\tCompression_rate: 0.00%\n\t\tComment: first draft"
    );
}

#[test]
fn outline_of_an_entry_report() {
    let object = ZipObjectJsonWriter {
        compression_type: None,
        original_size: None,
        compressed_size: Some(18446744073709551615),
        compression_rate: Some(String::from("-3.10%")),
        comment: None,
    };
    assert_eq!(
        write_entry_report("dir/a b", &object),
        "\n\tdir/a b\n\t\tCompressed size: 18446744073709551615\n\t\tCompression_rate: -3.10%"
    );
}

#[test]
fn outline_written_twice_is_the_same() {
    let archives = vec![Archive {
        path: String::from("a.zip"),
        entries: vec![entry("foo.txt", zip::CompressionMethod::Deflated, 100, 50)],
    }];
    let writer = MultiArchiveFlatWriter::new(&archives);
    let first = writer.write_zip_info(&no_exclusion(), &StatArgs::default());
    let second = writer.write_zip_info(&no_exclusion(), &StatArgs::default());
    assert_eq!(first, second);
}
