use anda::rpmspec::consumer::Consumer;
use anda::rpmspec::model::Package;
use anda::rpmspec::package::PkgQCond;
use anda::rpmspec::parser::SpecParser;

#[test]
fn text_without_macros_expands_to_itself() {
    let mut p = SpecParser::new();
    let mut c = Consumer::new("plain text, 100 per cent".to_owned());
    assert_eq!(p._expand_macro(&mut c).unwrap(), "plain text, 100 per cent");
}

#[test]
fn defined_macro_expands_to_its_body() {
    let mut p = SpecParser::new();
    p.macros.insert("vendor".into(), "Acme".into());
    assert_eq!(p._read_raw_macro_use(&mut ("vendor".into())).unwrap(), "Acme");
}

#[test]
fn condition_symbols_are_distinct() {
    let all = ["=", "<=", "<", ">=", ">"];
    let conds: Vec<PkgQCond> = all.iter().map(|s| PkgQCond::from_symbol(s)).collect();
    assert_eq!(conds, vec![PkgQCond::Eq, PkgQCond::Le, PkgQCond::Lt, PkgQCond::Ge, PkgQCond::Gt]);
    for i in 0..conds.len() {
        for j in 0..conds.len() {
            assert_eq!(conds[i] == conds[j], i == j);
        }
    }
}

#[test]
fn simple_query_validity() {
    let mut ok = vec![];
    assert!(Package::add_simple_query(&mut ok, "  foo_bar, baz-2 qux ").is_ok());
    let mut bad = vec![];
    assert!(Package::add_simple_query(&mut bad, "foo, bar+").is_err());
}

#[test]
fn macro_file_definitions() {
    let mut p = SpecParser::new();
    p.macros.insert("kept".into(), "old".into());
    p.load_macro_from_file("%_prefix /usr\n%kept new\n%with_args() echo %1\n# comment\n%long a \\\nb\n");
    assert_eq!(p._read_raw_macro_use(&mut ("_prefix".into())).unwrap(), "/usr");
    assert_eq!(p._read_raw_macro_use(&mut ("kept".into())).unwrap(), "old");
    let name: Vec<char> = "with_args".chars().collect();
    assert_eq!(p.macros.get(&name).map(|v| v.into_iter().collect::<String>()), Some("echo %1 ".to_owned()));
    let long: Vec<char> = "long".chars().collect();
    assert_eq!(p.macros.get(&long).map(|v| v.into_iter().collect::<String>()), Some("a \\\nb".to_owned()));
    let mut q = SpecParser::new();
    q.load_macro_from_file("%cafe\u{301} x\n%sub\u{2082} y\n");
    let marked: Vec<char> = "cafe\u{301}".chars().collect();
    assert_eq!(q.macros.get(&marked).map(|v| v.into_iter().collect::<String>()), Some("x".to_owned()));
    let sub: Vec<char> = "sub\u{2082}".chars().collect();
    assert_eq!(q.macros.get(&sub), None);
}
