use snekplusplus::import::{
    classify_line, import_not_found_message, invalid_import_message, resolve_import, splice_imports, ImportSource,
    SourceLine,
};

#[test]
fn plain_lines() {
    assert!(matches!(classify_line("int x = 1;"), SourceLine::Plain));
    assert!(matches!(classify_line(""), SourceLine::Plain));
    assert!(matches!(classify_line("imports"), SourceLine::Plain));
    assert!(matches!(classify_line("import"), SourceLine::Plain));
    assert!(matches!(classify_line("\timport\t\"a\""), SourceLine::Plain));
}

#[test]
fn import_lines() {
    assert!(matches!(classify_line("import \"lib.spp\""), SourceLine::Import(n) if n == "lib.spp"));
    assert!(matches!(classify_line("  \t import    \"dir/x.spp\" trailing"), SourceLine::Import(n) if n == "dir/x.spp"));
    assert!(matches!(classify_line("import \"\""), SourceLine::Import(n) if n.is_empty()));
}

#[test]
fn invalid_import_lines() {
    assert!(matches!(classify_line("import lib.spp"), SourceLine::Invalid));
    assert!(matches!(classify_line("import \"unterminated"), SourceLine::Invalid));
    assert!(matches!(classify_line("import "), SourceLine::Invalid));
}

#[test]
fn import_messages() {
    assert_eq!(invalid_import_message("import x"), "invalid import syntax: import x");
    assert_eq!(
        import_not_found_message("a.spp", &vec!["/p/a.spp".to_string(), "/q/a.spp".to_string()]),
        "import \"a.spp\" not found. tried: /p/a.spp, /q/a.spp"
    );
    assert_eq!(import_not_found_message("b", &vec![]), "import \"b\" not found. tried: ");
}

#[test]
fn import_name_stops_at_first_quote() {
    assert!(matches!(classify_line("import \"a\"b\""), SourceLine::Import(n) if n == "a"));
    if let SourceLine::Import(n) = classify_line("import \"x y\" \"z\"") {
        assert!(!n.contains('"'));
        assert_eq!(n, "x y");
    } else {
        panic!("expected an import");
    }
}

#[test]
fn splice_replaces_imports_in_order() {
    let lines: Vec<String> = vec!["a".into(), "import \"x\"".into(), "b".into(), "  import \"y\"".into()];
    let loaded: Vec<String> = vec!["X1\nX2".into(), "".into()];
    assert_eq!(splice_imports(&lines, &loaded), Ok("a\nX1\nX2\nb\n\n".to_string()));
}

#[test]
fn splice_stops_at_first_bad_import() {
    let lines: Vec<String> = vec!["import \"x\"".into(), "import y".into(), "import \"z\"".into()];
    let loaded: Vec<String> = vec!["X".into()];
    assert_eq!(splice_imports(&lines, &loaded), Err("invalid import syntax: import y".to_string()));
    assert_eq!(splice_imports(&vec![], &vec![]), Ok(String::new()));
}

#[test]
fn import_is_read_beside_the_importing_file_first() {
    let secondary = Some("lib/x.spp".to_string());
    assert!(matches!(resolve_import("x.spp", &"src/x.spp".to_string(), true, &secondary, true), ImportSource::Primary));
    assert!(matches!(resolve_import("x.spp", &"src/x.spp".to_string(), true, &None, false), ImportSource::Primary));
    assert!(matches!(
        resolve_import("x.spp", &"src/x.spp".to_string(), false, &secondary, true),
        ImportSource::Secondary
    ));
}

#[test]
fn import_found_nowhere_names_the_paths_tried() {
    let secondary = Some("lib/x.spp".to_string());
    match resolve_import("x.spp", &"src/x.spp".to_string(), false, &secondary, false) {
        ImportSource::NotFound(m) => assert_eq!(m, "import \"x.spp\" not found. tried: src/x.spp, lib/x.spp"),
        _ => panic!("the import should not be found"),
    }
    match resolve_import("x.spp", &"src/x.spp".to_string(), false, &None, false) {
        ImportSource::NotFound(m) => assert_eq!(m, "import \"x.spp\" not found. tried: src/x.spp"),
        _ => panic!("the import should not be found"),
    }
}
