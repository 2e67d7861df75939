use zip_info::zip_info::{Args, StatArgs};

fn args_with(a: bool, b: bool, c: bool, d: bool) -> Args {
    Args {
        arg_path: vec![String::from("a.zip")],
        flag_json: false,
        flag_pretty_json: false,
        flag_exclude: String::new(),
        flag_compression_type: a,
        flag_original_size: b,
        flag_compressed_size: c,
        flag_compression_rate: d,
    }
}

#[test]
fn selection_of_nothing_is_selection_of_everything() {
    let none = StatArgs::new(&args_with(false, false, false, false));
    let all = StatArgs::new(&args_with(true, true, true, true));
    assert_eq!(none, all);
    assert_eq!(none, StatArgs::default());
    assert!(!none.is_all_false());
}

#[test]
fn selection_of_something_is_kept() {
    let some = StatArgs::new(&args_with(false, true, false, false));
    assert!(!some.flag_compression_type);
    assert!(some.flag_original_size);
    assert!(!some.flag_compressed_size);
    assert!(!some.flag_compression_rate);
}
