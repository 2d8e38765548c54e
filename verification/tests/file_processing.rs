use bitgeon::error::AppError;
use bitgeon::file_processing::PathProbe;
use bitgeon::file_processing::PathState;
use bitgeon::file_processing::WalkEntry;
use bitgeon::file_processing::check_path;
use bitgeon::file_processing::count_leaves;
use bitgeon::file_processing::normalize_path_string;
use bitgeon::file_processing::parse_paths;
use bitgeon::file_processing::state_for_probe;

#[test]
fn test_parse_paths() {
    let input = r"C:\Users\USERNAME\images\ferris.jpg C:\Users\USERNAME\images; /images/; /images/ferris.jpg";

    let output = parse_paths(input);

    println!("{:#?}", output);

    let expected_output = vec![
        "C:\\Users\\USERNAME\\images\\ferris.jpg",
        "C:\\Users\\USERNAME\\images",
        "/images/",
        "/images/ferris.jpg",
    ];

    assert_eq!(output.unwrap(), expected_output);

    let input = r"aklæsjdagklsdjfskhgdælaC:\Users\USERNAME\OneDrive\Documents\USER home\Programming\Projects\bitgeon\src\bin\ui.rs";

    let output = parse_paths(input);

    println!("{:#?}", output);

    let expected_output = vec![
        r"aklæsjdagklsdjfskhgdæla",
        r"C:\Users\USERNAME\OneDrive\Documents\USER home\Programming\Projects\bitgeon\src\bin\ui.rs",
    ];

    assert_eq!(output.unwrap(), expected_output);
}

#[test]
fn parse_paths_empty_input() {
    assert_eq!(parse_paths("").unwrap(), Vec::<String>::new());
}

#[test]
fn parse_paths_only_separators() {
    assert_eq!(parse_paths(";;;").unwrap(), Vec::<String>::new());
    assert_eq!(parse_paths(" ; \n ; ").unwrap(), Vec::<String>::new());
}

#[test]
fn parse_paths_semicolon_split() {
    assert_eq!(parse_paths("/a;/b").unwrap(), vec!["/a", "/b"]);
    assert_eq!(parse_paths("  \"/a b\" ; /c  ").unwrap(), vec!["/a b", "/c"]);
}

#[test]
fn parse_paths_newline_split() {
    assert_eq!(parse_paths("/a\n/b").unwrap(), vec!["/a", "/b"]);
}

#[test]
fn parse_paths_drive_prefix_split() {
    assert_eq!(parse_paths("ab:cd").unwrap(), vec!["a", "b:cd"]);
    assert_eq!(parse_paths(r"C:\x D:\y").unwrap(), vec![r"C:\x", r"D:\y"]);
}

#[test]
fn check_path_empty_is_invalid() {
    assert_eq!(check_path("").unwrap(), PathState::Invalid);
    assert_eq!(check_path("   ").unwrap(), PathState::Invalid);
}

#[test]
fn check_path_missing_is_invalid() {
    let verdict = check_path("/this_path_should_not_exist_anywhere_zz/xyz").unwrap();
    assert_eq!(verdict, PathState::Invalid);
}

#[test]
fn check_path_never_unchecked() {
    for input in ["", "   ", "some_relative_name", "/missing_zz/x"] {
        match check_path(input) {
            Ok(state) => assert!(!matches!(state, PathState::Unchecked)),
            Err(e) => assert!(matches!(e, AppError::IoError(_))),
        }
    }
}

#[test]
fn normalize_keeps_absolute_and_dotted_paths() {
    assert_eq!(normalize_path_string("/images/ferris.jpg"), "/images/ferris.jpg");
    assert_eq!(normalize_path_string("./x"), "./x");
    assert_eq!(normalize_path_string(".hidden"), ".hidden");
}

#[test]
fn normalize_prefixes_relative_paths() {
    assert_eq!(normalize_path_string("images"), "./images");
    assert_eq!(normalize_path_string("  \\images"), "./images");
}

#[test]
fn probe_states_map_to_path_states() {
    assert_eq!(
        state_for_probe(PathProbe::ReadableFile, Ok(Vec::new())).unwrap(),
        PathState::File
    );
    assert_eq!(
        state_for_probe(PathProbe::UnreadableFile, Ok(Vec::new())).unwrap(),
        PathState::Invalid
    );
    assert_eq!(
        state_for_probe(PathProbe::Missing, Ok(Vec::new())).unwrap(),
        PathState::Invalid
    );
}

#[test]
fn directory_count_skips_hidden_and_directories() {
    let entries = vec![
        WalkEntry { name: "a.txt".to_string(), is_dir: false },
        WalkEntry { name: ".hidden".to_string(), is_dir: false },
        WalkEntry { name: "sub".to_string(), is_dir: true },
        WalkEntry { name: "b.png".to_string(), is_dir: false },
    ];
    assert_eq!(count_leaves(&entries), 2);
    assert_eq!(
        state_for_probe(PathProbe::Directory, Ok(entries)).unwrap(),
        PathState::Directory(2)
    );
}

#[test]
fn walk_failure_surfaces_as_io_error() {
    let outcome = state_for_probe(PathProbe::Directory, Err("walk failed".to_string()));
    assert_eq!(outcome, Err(AppError::IoError("walk failed".to_string())));
}

#[test]
fn unresolvable_path_surfaces_as_io_error() {
    let outcome = state_for_probe(PathProbe::Unresolvable, Ok(Vec::new()));
    assert!(matches!(outcome, Err(AppError::IoError(_))));
}
