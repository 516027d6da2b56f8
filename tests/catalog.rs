use product_catalog::catalog::{get_product_info, Catalog, Product};
use product_catalog::input::clean_line;
use product_catalog::name_match::eq_ignore_ascii_case;
use product_catalog::weight::Weight;

fn weight_of(text: &str) -> Option<Weight> {
    let value: f32 = text.parse().ok()?;
    Weight::from_bits(value.to_bits())
}

fn product(name: &str, weight: &str, unit: &str) -> Product {
    Product {
        name: clean_line(name),
        weight: weight_of(&clean_line(weight)).expect("a finite weight"),
        unit: clean_line(unit),
    }
}

fn record_line(p: &Product) -> String {
    format!("{}, {} {}", p.name, f32::from_bits(p.weight.to_bits()), p.unit)
}

fn result_line(found: Option<(Weight, String)>) -> String {
    match found {
        Some((w, u)) => format!("Found: {} {}", f32::from_bits(w.to_bits()), u),
        None => "Product not found.".to_string(),
    }
}

/// Runs the four entered lines through the catalog as the program does, and
/// gives back the catalog lines and the result line.
fn session(name: &str, weight: &str, unit: &str, query: &str) -> (Vec<String>, String) {
    let mut catalog = Catalog::new();
    catalog.append(product(name, weight, unit));
    let lines = catalog.iterate().iter().map(record_line).collect();
    let found = catalog.lookup(&clean_line(query));
    (lines, result_line(found))
}

#[test]
fn happy_path_exact_match() {
    let (lines, result) = session("Apple\n", "0.2\n", "kg\n", "Apple\n");
    assert_eq!(lines, vec!["Apple, 0.2 kg".to_string()]);
    assert_eq!(result, "Found: 0.2 kg");
}

#[test]
fn case_insensitive_hit() {
    let (lines, result) = session("Banana", "1.5", "lb", "banana");
    assert_eq!(lines, vec!["Banana, 1.5 lb".to_string()]);
    assert_eq!(result, "Found: 1.5 lb");
}

#[test]
fn miss() {
    let (lines, result) = session("Cherry", "10", "ea", "Grape");
    assert_eq!(lines, vec!["Cherry, 10 ea".to_string()]);
    assert_eq!(result, "Product not found.");
}

#[test]
fn whitespace_trimmed_on_query() {
    let (_, result) = session("Date", "3.14", "kg", "   Date   ");
    assert_eq!(result, "Found: 3.14 kg");
}

#[test]
fn malformed_weight_rejected() {
    assert!(weight_of("not-a-number").is_none());
    assert!(weight_of("inf").is_none());
    assert!(weight_of("NaN").is_none());
}

#[test]
fn non_ascii_name_wrong_case_misses() {
    let (lines, result) = session("Éclair", "0.1", "kg", "éclair");
    assert_eq!(lines, vec!["Éclair, 0.1 kg".to_string()]);
    assert_eq!(result, "Product not found.");
}

#[test]
fn non_ascii_name_exact_hits() {
    let (_, result) = session("Éclair", "0.1", "kg", "Éclair");
    assert_eq!(result, "Found: 0.1 kg");
    let (_, result) = session("Éclair", "0.1", "kg", "éCLAIR");
    assert_eq!(result, "Product not found.");
    let (_, result) = session("Éclair", "0.1", "kg", "ÉCLAIR");
    assert_eq!(result, "Found: 0.1 kg");
}

#[test]
fn iteration_keeps_insertion_order() {
    let mut catalog = Catalog::new();
    catalog.append(product("Fig", "1", "kg"));
    catalog.append(product("Apple", "2", "lb"));
    catalog.append(product("Melon", "3.5", "ea"));
    let names: Vec<&str> = catalog.iterate().iter().map(|p| p.name.as_str()).collect();
    assert_eq!(names, vec!["Fig", "Apple", "Melon"]);
    assert_eq!(catalog.len(), 3);
}

#[test]
fn iteration_is_repeatable() {
    let mut catalog = Catalog::new();
    catalog.append(product("Fig", "1", "kg"));
    catalog.append(product("Apple", "2", "lb"));
    let first: Vec<String> = catalog.iterate().iter().map(record_line).collect();
    let second: Vec<String> = catalog.iterate().iter().map(record_line).collect();
    assert_eq!(first, second);
    assert_eq!(first, vec!["Fig, 1 kg".to_string(), "Apple, 2 lb".to_string()]);
}

#[test]
fn first_match_wins() {
    let mut catalog = Catalog::new();
    catalog.append(product("Kiwi", "1", "kg"));
    catalog.append(product("KIWI", "2", "lb"));
    catalog.append(product("kiwi", "3", "ea"));
    assert_eq!(result_line(catalog.lookup("kiwi")), "Found: 1 kg");
    assert_eq!(result_line(catalog.lookup("KiWi")), "Found: 1 kg");
}

#[test]
fn case_permutations_found() {
    let mut catalog = Catalog::new();
    catalog.append(product("Orange 7-up", "2", "ea"));
    for q in ["orange 7-up", "ORANGE 7-UP", "oRaNgE 7-Up", "Orange 7-up"] {
        assert_eq!(result_line(catalog.lookup(q)), "Found: 2 ea");
    }
    assert_eq!(result_line(catalog.lookup("Orange 7_up")), "Product not found.");
    assert_eq!(result_line(catalog.lookup("Orange")), "Product not found.");
    assert_eq!(result_line(catalog.lookup("Orange 7-up ")), "Product not found.");
}

#[test]
fn empty_catalog_misses() {
    let catalog = Catalog::new();
    assert_eq!(catalog.len(), 0);
    assert!(catalog.iterate().is_empty());
    assert!(catalog.lookup("").is_none());
    assert!(catalog.lookup("Apple").is_none());
}

#[test]
fn empty_query_matches_only_empty_name() {
    let mut catalog = Catalog::new();
    catalog.append(product("Apple", "1", "kg"));
    assert!(catalog.lookup("").is_none());
    catalog.append(Product {
        name: String::new(),
        weight: weight_of("4").unwrap(),
        unit: "lb".to_string(),
    });
    assert_eq!(result_line(catalog.lookup("")), "Found: 4 lb");
}

#[test]
fn lookup_on_slice() {
    let products = vec![product("Pear", "0.5", "kg"), product("Plum", "0.25", "lb")];
    assert_eq!(result_line(get_product_info(&products, "PLUM")), "Found: 0.25 lb");
    assert_eq!(result_line(get_product_info(&products, "Peach")), "Product not found.");
    assert_eq!(result_line(get_product_info(&[], "Pear")), "Product not found.");
}

#[test]
fn ascii_case_comparison() {
    assert!(eq_ignore_ascii_case("Hello", "hELLO"));
    assert!(eq_ignore_ascii_case("", ""));
    assert!(!eq_ignore_ascii_case("Hello", "Hello!"));
    assert!(!eq_ignore_ascii_case("@", "`"));
    assert!(!eq_ignore_ascii_case("[", "{"));
    assert!(!eq_ignore_ascii_case("straße", "STRASSE"));
    assert!(!eq_ignore_ascii_case("ä", "Ä"));
}

#[test]
fn clean_line_trims_only_the_ends() {
    assert_eq!(clean_line("  Date  \n"), "Date");
    assert_eq!(clean_line("\tred  apple\r\n"), "red  apple");
    assert_eq!(clean_line("\u{3000}Fig\u{a0}"), "Fig");
    assert_eq!(clean_line(" \n\t"), "");
    assert_eq!(clean_line(""), "");
    assert_eq!(clean_line("kg"), "kg");
}

#[test]
fn weight_bits_round_trip() {
    let w = Weight::from_bits(1.5f32.to_bits()).unwrap();
    assert_eq!(w.to_bits(), 1.5f32.to_bits());
    assert_eq!(Weight::from_bits(0).unwrap().to_bits(), 0);
    assert!(Weight::from_bits(f32::INFINITY.to_bits()).is_none());
    assert!(Weight::from_bits(f32::NEG_INFINITY.to_bits()).is_none());
    assert!(Weight::from_bits(f32::NAN.to_bits()).is_none());
    assert!(Weight::from_bits(f32::MAX.to_bits()).is_some());
    assert!(Weight::from_bits(f32::MIN_POSITIVE.to_bits() - 1).is_some());
}
