//! Tests of the element directory: lookups, normalization and round trips.

use subshells::element::{sanitize, distinct_normalized_names, distinct_normalized_symbols};
use subshells::element::{ChemicalElement, CreationError};

#[test]
fn resolve_by_number_hydrogen() {
    let e = ChemicalElement::from_atomic_number(1).unwrap();
    assert_eq!(e.atomic_number(), 1);
    assert_eq!(e.name(), "Hidrógeno");
    assert_eq!(e.symbol(), "H");
}

#[test]
fn resolve_by_number_neon() {
    let e = ChemicalElement::from_atomic_number(10).unwrap();
    assert_eq!(e.atomic_number(), 10);
    assert_eq!(e.name(), "Neón");
    assert_eq!(e.symbol(), "Ne");
}

#[test]
fn resolve_by_number_last() {
    let e = ChemicalElement::from_atomic_number(118).unwrap();
    assert_eq!(e.name(), "Oganesón");
    assert_eq!(e.symbol(), "Og");
}

#[test]
fn resolve_by_number_out_of_range() {
    match ChemicalElement::from_atomic_number(0) {
        Err(CreationError::AtomicNumberNotFound(n)) => assert_eq!(n, 0),
        _ => panic!("expected a failed lookup for 0"),
    }
    match ChemicalElement::from_atomic_number(119) {
        Err(CreationError::AtomicNumberNotFound(n)) => assert_eq!(n, 119),
        _ => panic!("expected a failed lookup for 119"),
    }
}

#[test]
fn resolve_by_name_is_accent_and_case_insensitive() {
    let plain = ChemicalElement::from_name("hidrogeno").unwrap();
    let accented = ChemicalElement::from_name("Hidrógeno").unwrap();
    let upper = ChemicalElement::from_name("HIDROGENO").unwrap();
    assert_eq!(plain.atomic_number(), 1);
    assert_eq!(accented.atomic_number(), 1);
    assert_eq!(upper.atomic_number(), 1);
}

#[test]
fn resolve_by_name_unknown() {
    match ChemicalElement::from_name("kryptonite") {
        Err(CreationError::NameNotFound(t)) => assert_eq!(t, "kryptonite"),
        _ => panic!("expected a failed lookup"),
    }
}

#[test]
fn resolve_by_symbol() {
    let e = ChemicalElement::from_symbol("he").unwrap();
    assert_eq!(e.atomic_number(), 2);
    assert_eq!(e.name(), "Helio");
    let e = ChemicalElement::from_symbol("Fe").unwrap();
    assert_eq!(e.atomic_number(), 26);
}

#[test]
fn resolve_by_symbol_unknown() {
    match ChemicalElement::from_symbol("xx") {
        Err(CreationError::SymbolNotFound(t)) => assert_eq!(t, "xx"),
        _ => panic!("expected a failed lookup"),
    }
}

#[test]
fn constructor_and_accessors() {
    let e = ChemicalElement::new(7, "Nitrógeno".to_owned(), "N".to_owned());
    assert_eq!(e.atomic_number(), 7);
    assert_eq!(e.name(), "Nitrógeno");
    assert_eq!(e.symbol(), "N");
}

#[test]
fn directory_has_all_118_entries() {
    let table = ChemicalElement::all_attributes();
    assert_eq!(table.len(), 118);
    assert_eq!(table[0], ("Hidrógeno", "H"));
    assert_eq!(table[117], ("Oganesón", "Og"));
}

#[test]
fn sanitize_lowercases_and_strips_accents() {
    assert_eq!(sanitize("Hidrógeno"), "hidrogeno");
    assert_eq!(sanitize("HIDROGENO"), "hidrogeno");
    assert_eq!(sanitize("áéíóú"), "aeiou");
    assert_eq!(sanitize("Neón"), "neon");
}

#[test]
fn sanitize_is_idempotent() {
    let once = sanitize("Hidrógeno");
    let twice = sanitize(once.as_str());
    assert_eq!(once, twice);
    let once = sanitize("ÁRBOL camión");
    let twice = sanitize(once.as_str());
    assert_eq!(once, twice);
}

#[test]
fn sanitize_folds_case_and_the_five_accents_only() {
    assert_eq!(sanitize("Hidrógeno"), sanitize("hidrogeno"));
    // Uppercase accented vowels lie outside the ASCII case fold and outside
    // the five lowercase accent mappings, so they are kept as they are.
    assert_ne!(sanitize("HIDRÓGENO"), sanitize("hidrogeno"));
    assert_eq!(sanitize("HIDRÓGENO"), "hidrÓgeno");
}

#[test]
fn normalized_names_and_symbols_are_distinct() {
    assert!(distinct_normalized_names());
    assert!(distinct_normalized_symbols());
}

#[test]
fn round_trip_by_name_and_symbol_for_every_element() {
    let mut n: u8 = 1;
    while n <= 118 {
        let e = ChemicalElement::from_atomic_number(n).unwrap();
        let by_name = ChemicalElement::from_name(e.name()).unwrap();
        assert_eq!(by_name.atomic_number(), n);
        let by_symbol = ChemicalElement::from_symbol(e.symbol()).unwrap();
        assert_eq!(by_symbol.atomic_number(), n);
        n += 1;
    }
}

#[test]
fn sanitize_keeps_an_empty_string_empty() {
    assert_eq!(sanitize(""), "");
}
