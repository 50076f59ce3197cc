use compilation_session::config::{Encoding, LanguageFeatures, PackageType, Position, Profile};
use compilation_session::session::{BatchOutput, Compilation};
use compilation_session::source_map::SourceMap;
use compilation_session::span::Span;
use compilation_session::store::{CompileUnit, Package};

fn empty_unit() -> CompileUnit {
    CompileUnit {
        package: Package { items: Vec::new() },
        tys: Vec::new(),
        names: Vec::new(),
        sources: SourceMap { sources: Vec::new() },
    }
}

fn entry(name: &str, text: &str) -> (Vec<u8>, Vec<u8>) {
    (name.as_bytes().to_vec(), text.as_bytes().to_vec())
}

fn session_over(sources: Vec<(Vec<u8>, Vec<u8>)>) -> Compilation {
    Compilation::new(
        &sources,
        PackageType::Exe,
        Profile::Unrestricted,
        LanguageFeatures { flags: 0 },
        &Vec::new(),
        BatchOutput {
            core_unit: empty_unit(),
            std_unit: empty_unit(),
            user_package: Package { items: Vec::new() },
            user_tys: Vec::new(),
            user_names: Vec::new(),
            compile_errors: Vec::new(),
            lint_findings: Vec::new(),
            capability_findings: Vec::new(),
        },
    )
}

#[test]
fn maps_line_and_byte_column_to_global_offset() {
    // "ab\ncd" then "xyz": the second document starts at offset 5.
    let session = session_over(vec![entry("first", "ab\ncd"), entry("second", "xyz")]);
    let name = b"first".to_vec();
    assert_eq!(
        session.source_position_to_package_offset(&name, Position { line: 0, column: 0 }, Encoding::Utf8),
        0
    );
    assert_eq!(
        session.source_position_to_package_offset(&name, Position { line: 0, column: 1 }, Encoding::Utf8),
        1
    );
    assert_eq!(
        session.source_position_to_package_offset(&name, Position { line: 1, column: 1 }, Encoding::Utf8),
        4
    );
    let second = b"second".to_vec();
    assert_eq!(
        session.source_position_to_package_offset(&second, Position { line: 0, column: 2 }, Encoding::Utf8),
        7
    );
}

#[test]
fn column_stops_at_line_break() {
    let session = session_over(vec![entry("doc", "ab\ncd")]);
    let name = b"doc".to_vec();
    // Column 9 on a two-byte line: the offset stays at the line's end rather
    // than spilling into the next line.
    assert_eq!(
        session.source_position_to_package_offset(&name, Position { line: 0, column: 9 }, Encoding::Utf8),
        2
    );
}

#[test]
fn stale_positions_clamp_to_document_end() {
    // The caller's view of the document may be longer than the compiled
    // snapshot: the offset is clamped to the end of the named document and
    // never reaches the next document's range.
    let session = session_over(vec![entry("first", "ab"), entry("second", "wxyz")]);
    let name = b"first".to_vec();
    let offset = session.source_position_to_package_offset(&name, Position { line: 7, column: 3 }, Encoding::Utf8);
    assert_eq!(offset, 2);
    let full = session.package_span_of_source(&name);
    assert_eq!(full, Span { lo: 0, hi: 2 });
    assert!(full.lo <= offset && offset <= full.hi);
}

#[test]
fn mapped_offset_stays_within_full_document_span() {
    let session = session_over(vec![entry("first", "ab"), entry("second", "line one\nline two")]);
    let name = b"second".to_vec();
    let full = session.package_span_of_source(&name);
    assert_eq!(full, Span { lo: 2, hi: 19 });
    for line in 0..4u32 {
        for column in 0..12u32 {
            let offset =
                session.source_position_to_package_offset(&name, Position { line: line, column: column }, Encoding::Utf8);
            assert!(full.lo <= offset && offset <= full.hi);
        }
    }
}

#[test]
fn utf16_columns_count_code_units_not_bytes() {
    // One four-byte character (two UTF-16 units) followed by "z".
    let text = "\u{1F600}z";
    assert_eq!(text.len(), 5);
    let session = session_over(vec![entry("doc", text)]);
    let name = b"doc".to_vec();
    // Two UTF-16 units consume the whole four-byte character.
    assert_eq!(
        session.source_position_to_package_offset(&name, Position { line: 0, column: 2 }, Encoding::Utf16),
        4
    );
    // Three units land after "z".
    assert_eq!(
        session.source_position_to_package_offset(&name, Position { line: 0, column: 3 }, Encoding::Utf16),
        5
    );
    // A two-byte character counts one UTF-16 unit.
    let session2 = session_over(vec![entry("doc", "é=e")]);
    let name2 = b"doc".to_vec();
    assert_eq!(
        session2.source_position_to_package_offset(&name2, Position { line: 0, column: 1 }, Encoding::Utf16),
        2
    );
}

#[test]
fn empty_document_maps_everything_to_its_base() {
    let session = session_over(vec![entry("first", "abc"), entry("empty", "")]);
    let name = b"empty".to_vec();
    assert_eq!(
        session.source_position_to_package_offset(&name, Position { line: 5, column: 5 }, Encoding::Utf8),
        3
    );
    assert_eq!(session.package_span_of_source(&name), Span { lo: 3, hi: 3 });
}

#[test]
fn duplicate_names_resolve_to_the_first_document() {
    let session = session_over(vec![entry("doc", "aaaa"), entry("doc", "bb")]);
    let name = b"doc".to_vec();
    assert_eq!(session.package_span_of_source(&name), Span { lo: 0, hi: 4 });
    assert_eq!(
        session.source_position_to_package_offset(&name, Position { line: 0, column: 9 }, Encoding::Utf8),
        4
    );
}

#[test]
fn session_without_sources_still_has_a_user_package() {
    let session = session_over(Vec::new());
    assert_eq!(session.user_package_id, 2);
    assert!(session.user_unit().sources.sources.is_empty());
    assert!(session.errors.is_empty());
}

#[test]
fn find_by_name_reports_unknown_documents() {
    let session = session_over(vec![entry("first", "abc")]);
    let unit = session.user_unit();
    assert!(unit.sources.find_by_name(&b"first".to_vec()).is_some());
    assert!(unit.sources.find_by_name(&b"other".to_vec()).is_none());
}
