use periodic_words::{appended_vec, Compound, PeriodicWords};

#[test]
fn dyn_chemical_compound_works() {
    let test = PeriodicWords::new();
    assert_eq!(
        test.gen_compound("farts"),
        Some(vec!["Fluorine", "Argon", "Tennessine"])
    );
    assert_eq!(
        test.gen_compound("fun"),
        Some(vec!["Fluorine", "Uranium", "Nitrogen"])
    );
    assert_eq!(
        test.gen_compound("brew"),
        Some(vec!["Boron", "Rhenium", "Tungsten"])
    );
    assert_eq!(test.gen_compound("ew"), None);
    assert_eq!(
        test.gen_compound("carbon"),
        Some(vec!["Calcium", "Rubidium", "Oxygen", "Nitrogen"])
    );
    assert_eq!(
        test.gen_compound("xenon"),
        Some(vec!["Xenon", "Nobelium", "Nitrogen"])
    );
    assert_eq!(
        test.gen_compound("silver"),
        Some(vec!["Silicon", "Livermorium", "Erbium"])
    );
    assert_eq!(
        test.gen_compound("oganesson"),
        Some(vec![
            "Oxygen", "Gallium", "Neon", "Sulfur", "Sulfur", "Oxygen", "Nitrogen"
        ])
    );
    assert_eq!(
        test.gen_compound("copper"),
        Some(vec!["Cobalt", "Phosphorus", "Phosphorus", "Erbium"])
    );
    assert_eq!(
        test.gen_compound("silicon"),
        Some(vec!["Silicon", "Lithium", "Cobalt", "Nitrogen"])
    );
    assert_eq!(test.gen_compound("tin"), Some(vec!["Titanium", "Nitrogen"]));
    assert_eq!(
        test.gen_compound("dynamite"),
        Some(vec![
            "Dysprosium",
            "Nitrogen",
            "Americium",
            "Iodine",
            "Tellurium"
        ])
    );
    assert_eq!(test.gen_compound("zummer"), None);
}

#[test]
fn empty_word_has_empty_compound() {
    let table = PeriodicWords::new();
    assert_eq!(table.gen_compound(""), Some(vec![]));
}

#[test]
fn ew_has_no_compound() {
    let table = PeriodicWords::new();
    assert_eq!(table.gen_compound("ew"), None);
}

#[test]
fn farts_compound() {
    let table = PeriodicWords::new();
    assert_eq!(
        table.gen_compound("farts"),
        Some(vec!["Fluorine", "Argon", "Tennessine"])
    );
}

#[test]
fn tin_prefers_fewer_elements() {
    let table = PeriodicWords::new();
    assert_eq!(table.gen_compound("tin"), Some(vec!["Titanium", "Nitrogen"]));
}

#[test]
fn carbon_compound() {
    let table = PeriodicWords::new();
    assert_eq!(
        table.gen_compound("carbon"),
        Some(vec!["Calcium", "Rubidium", "Oxygen", "Nitrogen"])
    );
}

#[test]
fn uppercase_word_matches_lowercase() {
    let table = PeriodicWords::new();
    assert_eq!(table.solve_word("FARTS"), table.gen_compound("farts"));
    assert_eq!(
        table.solve_word("FaRtS"),
        Some(vec!["Fluorine", "Argon", "Tennessine"])
    );
    assert_eq!(table.gen_compound("FARTS"), None);
}

#[test]
fn single_letter_symbols_always_solve() {
    let table = PeriodicWords::new();
    assert_eq!(
        table.gen_compound("wyuv"),
        Some(vec!["Tungsten", "Yttrium", "Uranium", "Vanadium"])
    );
    assert_eq!(
        table.gen_compound("bcfhiknopsuvwy"),
        Some(vec![
            "Boron",
            "Californium",
            "Hydrogen",
            "Iodine",
            "Potassium",
            "Nobelium",
            "Phosphorus",
            "Sulfur",
            "Uranium",
            "Vanadium",
            "Tungsten",
            "Yttrium"
        ])
    );
}

#[test]
fn compound_is_shortest() {
    let table = PeriodicWords::new();
    // "co" could be "c"+"o"; the single symbol "co" wins
    assert_eq!(table.gen_compound("co"), Some(vec!["Cobalt"]));
    // equal counts: "b"+"ra" and "br"+"a"? "a" is no symbol, so "b"+"ra"
    assert_eq!(table.gen_compound("bra"), Some(vec!["Boron", "Radium"]));
}

#[test]
fn tie_takes_two_letter_symbol_first() {
    let table = PeriodicWords::new();
    // "sn"+"o" and "s"+"no" both take two elements
    assert_eq!(table.gen_compound("sno"), Some(vec!["Tin", "Oxygen"]));
}

#[test]
fn non_letters_have_no_compound() {
    let table = PeriodicWords::new();
    assert_eq!(table.gen_compound("c o"), None);
    assert_eq!(table.gen_compound("n\u{e9}"), None);
    assert_eq!(table.gen_compound("1"), None);
}

#[test]
fn appended_vec_adds_at_end() {
    let base = vec!["Boron"];
    assert_eq!(appended_vec(&base, "Carbon"), vec!["Boron", "Carbon"]);
    assert_eq!(base, vec!["Boron"]);
    assert_eq!(appended_vec(&vec![], "Iron"), vec!["Iron"]);
}

#[test]
fn compound_renders_brackets() {
    let c = Compound(vec!["Fluorine", "Argon", "Tennessine"]);
    assert_eq!(c.render(), "[Fluorine][Argon][Tennessine]");
    assert_eq!(Compound(vec![]).render(), "");
}

#[test]
fn render_matches_hit_and_miss() {
    let table = PeriodicWords::new();
    assert_eq!(
        table.render_matches("Farts", false),
        Some("farts [Fluorine][Argon][Tennessine]".to_string())
    );
    assert_eq!(
        table.render_matches("EW", true),
        Some(
            "\"ew\" can't be written with the periodic table until we discover more elements."
                .to_string()
        )
    );
    assert_eq!(table.render_matches("ew", false), None);
    assert_eq!(table.render_matches("", false), Some(" ".to_string()));
}
