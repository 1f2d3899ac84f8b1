use wgpu_openxr_example::wgsl::{preprocess, FileMap, PreprocessError, Preprocessor};

#[test]
fn preprocess_can_include() {
    let main_file = "#include blah.wgsl\n// and good night!";
    let mut files = FileMap::new();
    files.insert("foo.wgsl", "// first file!");
    files.insert("blah.wgsl", "#include foo.wgsl\n// hello world!");
    files.insert("main.wgsl", main_file);

    let expected_output = r#"// first file!
// hello world!
// and good night!"#;

    assert_eq!(preprocess(&files, main_file).unwrap(), expected_output);
}

#[test]
fn preprocess_without_includes_is_identity() {
    let files = FileMap::new();
    let text = "fn vs_main() {}\r\n// untouched\n";
    assert_eq!(preprocess(&files, text).unwrap(), text);
    assert_eq!(preprocess(&files, "").unwrap(), "");
}

#[test]
fn preprocess_missing_include_fails() {
    let files = FileMap::new();
    let r = preprocess(&files, "#include nope.wgsl");
    assert_eq!(r, Err(PreprocessError::MissingInclude));
}

#[test]
fn preprocess_strips_carriage_return_before_line_feed() {
    let mut files = FileMap::new();
    files.insert("a.wgsl", "// contents of a");
    let r = preprocess(&files, "#include a.wgsl\r\n// z").unwrap();
    assert_eq!(r, "// contents of a\n// z");
}

#[test]
fn preprocess_drops_final_line_ending_when_expanding() {
    let mut files = FileMap::new();
    files.insert("a.wgsl", "// contents of a");
    let r = preprocess(&files, "#include a.wgsl\n").unwrap();
    assert_eq!(r, "// contents of a");
}

#[test]
fn preprocess_cyclic_include_is_reported() {
    let mut files = FileMap::new();
    files.insert("a.wgsl", "#include b.wgsl");
    files.insert("b.wgsl", "#include a.wgsl");
    let r = preprocess(&files, "#include a.wgsl");
    assert_eq!(r, Err(PreprocessError::CyclicInclude));
}

#[test]
fn file_map_insert_shadows_older_entry() {
    let mut files = FileMap::new();
    files.insert("a.wgsl", "// old");
    files.insert("a.wgsl", "// new");
    assert_eq!(preprocess(&files, "#include a.wgsl").unwrap(), "// new");
}

#[test]
fn preprocessor_runs_on_stored_file() {
    let mut files = FileMap::new();
    files.insert("foo.wgsl", "// first file!");
    files.insert("main.wgsl", "#include foo.wgsl\n// main");
    let pp = Preprocessor::from_files(files);
    assert_eq!(pp.preprocess("main.wgsl").unwrap(), "// first file!\n// main");
}

#[test]
fn preprocessor_reports_absent_file() {
    let pp = Preprocessor::from_files(FileMap::new());
    assert_eq!(pp.preprocess("main.wgsl"), Err(PreprocessError::FileNotPresent));
}

#[test]
fn preprocess_error_messages() {
    assert_eq!(PreprocessError::MissingInclude.message(), "failed to find file");
    assert_eq!(PreprocessError::FileNotPresent.message(), "file not present");
    assert_eq!(PreprocessError::CyclicInclude.message(), "cyclic include");
}

#[test]
fn preprocess_keyword_outside_a_directive_line_never_resolves() {
    // The keyword in the middle of a line is not a directive, so no
    // pass rewrites it and the run is cut off instead of spinning.
    let files = FileMap::new();
    let r = preprocess(&files, "// a note about #include handling");
    assert_eq!(r, Err(PreprocessError::CyclicInclude));
}

#[test]
fn preprocess_expands_includes_of_included_files_across_passes() {
    let mut files = FileMap::new();
    files.insert("a.wgsl", "// top\r\n#include b.wgsl");
    files.insert("b.wgsl", "// bottom");
    let r = preprocess(&files, "#include a.wgsl").unwrap();
    assert_eq!(r, "// top\n// bottom");
}
