use udf_validator::registry::{is_reserved, same_text};

#[test]
fn reserved_names_are_recognised() {
    for name in ["record", "map", "list", "aerospike", "bytes", "geojson", "iterator", "stream"] {
        assert!(is_reserved(name), "{name} is reserved");
    }
}

#[test]
fn other_names_are_not_reserved() {
    for name in ["", "x", "maps", "ma", "records", "aerospik", "strea", "streams", "byte"] {
        assert!(!is_reserved(name), "{name:?} is not reserved");
    }
}

#[test]
fn the_match_is_case_sensitive() {
    for name in ["Map", "MAP", "Record", "Aerospike", "LIST", "geoJSON"] {
        assert!(!is_reserved(name), "{name:?} is not reserved");
    }
}

#[test]
fn nothing_is_trimmed_or_normalised() {
    for name in [" map", "map ", "map\n", "\tlist", "m\u{0430}p", "ｍａｐ"] {
        assert!(!is_reserved(name), "{name:?} is not reserved");
    }
}

#[test]
fn same_text_compares_every_character() {
    assert!(same_text("", ""));
    assert!(same_text("map", "map"));
    assert!(same_text("żółw", "żółw"));
    assert!(!same_text("map", "map "));
    assert!(!same_text("map", "mbp"));
    assert!(!same_text("map", ""));
    assert!(!same_text("", "map"));
    assert!(!same_text("żółw", "zolw"));
}
