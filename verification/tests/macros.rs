use anda::rpmspec::expression::{rd_token, ExprValue, Token};
use anda::rpmspec::consumer::Consumer;
use anda::rpmspec::expander::{Failure, Halt};
use anda::rpmspec::parser::SpecParser;

#[test]
fn simple_macro_expand() {
    let mut parser = SpecParser::new();
    parser.macros.insert("macrohai".into(), "hai hai".into());
    assert_eq!(parser._read_raw_macro_use(&mut ("macrohai".into())).unwrap(), "hai hai");
}

#[test]
fn text_recursive_macro_expand() {
    let mut parser = SpecParser::new();
    parser.macros.insert("mhai".into(), "hai hai".into());
    parser.macros.insert("quadhai".into(), "%mhai %{mhai}".into());
    assert_eq!(parser._read_raw_macro_use(&mut ("quadhai".into())).unwrap(), "hai hai hai hai");
}

#[test]
fn text_quoting_recursive_macro_expand() {
    let mut parser = SpecParser::new();
    parser.macros.insert("mhai".into(), "hai hai".into());
    parser.macros.insert("idk".into(), "%!?mhai %?!mhai %{mhai}".into());
    parser.macros.insert("idk2".into(), "%{?mhai} %{!mhai} %{!?mhai} %{?!mhai}".into());
    parser.macros.insert("aaa".into(), "%idk %idk2".into());
    assert_eq!(parser._read_raw_macro_use(&mut ("aaa".into())).unwrap(), "  hai hai hai hai hai hai  ");
}

#[test]
fn shell_macro_expand() {
    let mut parser = SpecParser::new();
    parser.macros.insert("x".into(), "%(echo haai | sed 's/a/aa/g')".into());
    // The expander asks for the command's output before it can go on.
    match parser._read_raw_macro_use(&mut ("x".into())) {
        Err(Failure::Halt(Halt::NeedShell(cmd))) => {
            assert_eq!(cmd.iter().collect::<String>(), "echo haai | sed 's/a/aa/g'");
        }
        other => panic!("expected a request for the shell, got {other:?}"),
    }
    parser.shell.record_success("echo haai | sed 's/a/aa/g'".into(), "haaaai\n".into());
    assert_eq!(parser._read_raw_macro_use(&mut ("x".into())).unwrap(), "haaaai");
}

#[test]
fn presence_macro_expand() {
    let mut parser = SpecParser::new();
    parser.macros.insert("x".into(), "%{?not_exist:hai}%{!?not_exist:bai}".into());
    assert_eq!(parser._read_raw_macro_use(&mut ("x".into())).unwrap(), "bai");
    parser.macros.insert("not_exist".into(), "wha".into());
    assert_eq!(parser._read_raw_macro_use(&mut ("x".into())).unwrap(), "hai");
}

#[test]
fn param_macro_args_parsing() {
    let mut parser = SpecParser::new();
    assert_eq!(
        parser._param_macro_line_args(&mut Consumer::from("-a hai -b asdfsdklj \\  \n abcd\ne")).unwrap(),
        ("-a hai -b asdfsdklj abcd".into(), vec!["hai".into(), "asdfsdklj".into(), "abcd".into()], vec!['a', 'b'])
    );
}

#[test]
fn param_macro_expand() {
    let mut p = SpecParser::new();
    p.macros.insert("hai".into(), "hai, %1! ".into());
    assert_eq!(p.parse_macro(&mut "%hai madomado".into()).unwrap(), String::from("hai, madomado!"));
}

#[test]
fn rp_macro_reads_parametric_arguments() {
    let mut p = SpecParser::new();
    p.macros.insert("greet".into(), "hello, %1! ".into());
    let mut reader: Consumer = " world\nrest".into();
    assert_eq!(p._rp_macro("greet", &mut reader).unwrap(), "hello, world!");
    let mut plain: Consumer = "".into();
    p.macros.insert("name".into(), "anda".into());
    assert_eq!(p._rp_macro("name", &mut plain).unwrap(), "anda");
}

#[test]
fn consumer_reads_lines() {
    let mut c: Consumer = "first\nsecond line\n".into();
    assert_eq!(c.read_til_eol(), Some("first".to_owned()));
    assert_eq!(c.read_til_eol(), Some("second line".to_owned()));
}

#[test]
fn pushed_back_character_is_read_first() {
    let mut c: Consumer = "bc".into();
    assert_eq!(c.next(), Some('b'));
    c.push('x');
    assert_eq!(c.next(), Some('x'));
    assert_eq!(c.next(), Some('c'));
    assert_eq!(c.next(), None);
}

#[test]
fn lower_and_len_builtins() {
    let mut p = SpecParser::new();
    assert_eq!(p._rp_macro("lower", &mut "HeLLo ÄB".into()).unwrap(), "hello äb");
    assert_eq!(p._rp_macro("len", &mut "abcd".into()).unwrap(), "4");
}

#[test]
fn undefine_removes_the_named_macro() {
    let mut parser = SpecParser::new();
    parser.macros.insert("foo".into(), "bar".into());
    parser.macros.insert("undefine".into(), "kept".into());
    assert_eq!(parser._rp_macro("undefine", &mut (" foo".into())).unwrap(), "");
    assert!(!parser.macros.contains(&['f', 'o', 'o']));
    assert!(parser.macros.contains(&"undefine".chars().collect::<Vec<char>>()));
    parser.parse("%define x 1\n%undefine x\nName: a%{?x}\n").unwrap();
    assert_eq!(parser.rpm.name, Some("a".to_owned()));
}

#[test]
fn macro_file_matches_are_added_in_turn() {
    let mut t = anda::rpmspec::table::MacroTable::new();
    let caps = vec![
        ("foo()".to_owned(), "x".to_owned()),
        ("bar".to_owned(), " y ".to_owned()),
        ("bar".to_owned(), "z".to_owned()),
    ];
    anda::rpmspec::words::add_file_defs(&mut t, &caps);
    assert_eq!(t.get(&['f', 'o', 'o']), Some(vec!['x', ' ']));
    assert_eq!(t.get(&['b', 'a', 'r']), Some(vec!['y']));
    let mut parser = SpecParser::new();
    parser.load_macro_from_file("%_a 1\n%_b two \\\n lines\nnot a macro\n%_a 2\n");
    assert_eq!(parser.macros.get(&['_', 'a']), Some(vec!['1']));
    assert_eq!(parser.macros.get(&['_', 'b']), Some("two \\\n lines".chars().collect()));
}

#[test]
fn expression_tokens() {
    let s: Vec<char> = "  12 >= \"ab\" && v\"1.2\" || f(3) != 3".chars().collect();
    let mut pos = 0;
    let mut seen = vec![];
    loop {
        let (t, v, e) = rd_token(&s, pos).unwrap();
        seen.push((t, v));
        if t == Token::EOF {
            break;
        }
        pos = e;
    }
    let tokens: Vec<Token> = seen.iter().map(|(t, _)| *t).collect();
    assert_eq!(
        tokens,
        vec![
            Token::Integer, Token::GE, Token::String, Token::LogicalAnd, Token::Version, Token::LogicalOr,
            Token::Function, Token::Integer, Token::CloseP, Token::NEq, Token::Integer, Token::EOF
        ]
    );
    assert!(matches!(seen[0].1, ExprValue::Int(12)));
    assert!(matches!(&seen[2].1, ExprValue::Text(t) if t == "ab"));
    assert!(matches!(&seen[4].1, ExprValue::Version(t) if t == "1.2"));
    assert!(matches!(&seen[6].1, ExprValue::Text(t) if t == "f"));
    assert_eq!(Token::GE.symbol(), ">=");
    let err = |t: &str| rd_token(&t.chars().collect::<Vec<char>>(), 0).unwrap_err();
    assert_eq!(err("= 1"), "syntax error while parsing ==");
    assert_eq!(err("&"), "syntax error while parsing &&");
    assert_eq!(err("\"open"), "unterminated string in expression");
    assert_eq!(err("v\"\""), "invalid version");
    assert_eq!(err("word"), "bare words are no longer supported, please use \"...\"");
    assert_eq!(err("99999999999999999999"), "integer too large in expression");
    assert_eq!(err("#"), "parse error in expression");
}

#[test]
fn undefined_not_macros_stay() {
    let mut parser = SpecParser::new();
    parser.macros.insert("x".into(), "[%{!nope}] [%!nope]".into());
    assert_eq!(parser._read_raw_macro_use(&mut ("x".into())).unwrap(), "[%{!nope}] [%nope]");
}

#[test]
fn flags_are_not_part_of_the_name() {
    let mut parser = SpecParser::new();
    parser.macros.insert("a".into(), "val".into());
    parser.macros.insert("x".into(), "[%?a] [%!a] [%?nope] [%!?nope]".into());
    assert_eq!(parser._read_raw_macro_use(&mut ("x".into())).unwrap(), "[val] [val] [] []");
}

#[test]
fn param_body_keeps_flags_of_other_macros() {
    let mut p = SpecParser::new();
    p.macros.insert("a".into(), "A".into());
    p.macros.insert("pm".into(), "[%{!?nope:none}][%{?a:has}][%{-f:F}] ".into());
    assert_eq!(p.parse_macro(&mut "%pm -f x".into()).unwrap(), String::from("[none][has][F]"));
}

#[test]
fn presence_text_goes_on_after_a_macro() {
    let mut p = SpecParser::new();
    p.macros.insert("a".into(), "A".into());
    p.macros.insert("e".into(), "".into());
    p.macros.insert("x".into(), "%{?a:foo %a bar %e baz}".into());
    assert_eq!(p._read_raw_macro_use(&mut ("x".into())).unwrap(), "foo A bar  baz");
}
