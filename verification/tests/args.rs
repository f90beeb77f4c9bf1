use auto_test::args::{classify, ArgToken, Args, MalformedArgs};
use auto_test::tokens::{Token, TokenKind};
use proc_macro2::{Delimiter, Group, TokenStream, TokenTree};

fn tokens(text: &str) -> TokenStream {
    text.parse().expect("the text is a token sequence")
}

fn names(args: &Args) -> Vec<String> {
    args.test_names().clone()
}

fn parsed(text: &str) -> Args {
    Args::parse(&tokens(text)).expect("the text is an argument list")
}

fn refused(text: &str) -> MalformedArgs {
    Args::parse(&tokens(text)).expect_err("the text is no argument list")
}

#[test]
fn repeated_name_is_held_once() {
    let args = parsed("test_a, test_b, test_a");
    assert_eq!(args.len(), 2);
    assert_eq!(names(&args), vec!["test_a".to_string(), "test_b".to_string()]);
    assert!(args.contains(&"test_a".to_string()));
    assert!(args.contains(&"test_b".to_string()));
    assert!(!args.contains(&"test_c".to_string()));
}

#[test]
fn order_does_not_change_the_set() {
    let one = parsed("test_a, test_b, test_c");
    let other = parsed("test_c, test_a, test_b, test_c, test_a");
    assert_eq!(one.len(), 3);
    assert_eq!(other.len(), 3);
    for name in one.test_names() {
        assert!(other.contains(name));
    }
    for name in other.test_names() {
        assert!(one.contains(name));
    }
}

#[test]
fn names_keep_the_order_of_first_occurrence() {
    let args = parsed("zeta, alpha, zeta, mid, alpha");
    assert_eq!(
        names(&args),
        vec!["zeta".to_string(), "alpha".to_string(), "mid".to_string()]
    );
}

#[test]
fn empty_list_is_the_empty_set() {
    let args = parsed("");
    assert!(args.is_empty());
    assert_eq!(args.len(), 0);
    assert!(!args.contains(&"test_a".to_string()));
}

#[test]
fn single_name() {
    let args = parsed("test_valid");
    assert!(!args.is_empty());
    assert_eq!(names(&args), vec!["test_valid".to_string()]);
}

#[test]
fn trailing_comma_is_allowed() {
    let args = parsed("test_valid, test_div_by_zero,");
    assert_eq!(
        names(&args),
        vec!["test_valid".to_string(), "test_div_by_zero".to_string()]
    );
}

#[test]
fn raw_identifier_is_a_name() {
    let args = parsed("r#type, plain");
    assert_eq!(names(&args), vec!["r#type".to_string(), "plain".to_string()]);
}

#[test]
fn comments_and_spacing_are_no_tokens() {
    let args = parsed("  test_a /* first */ ,\n test_b // second\n");
    assert_eq!(names(&args), vec!["test_a".to_string(), "test_b".to_string()]);
}

#[test]
fn missing_comma_is_refused_where_it_is_missing() {
    assert_eq!(refused("test_a test_b").position, 1);
    assert_eq!(refused("test_a, test_b test_c").position, 3);
}

#[test]
fn leading_comma_is_refused() {
    assert_eq!(refused(", test_a").position, 0);
    assert_eq!(refused(",").position, 0);
}

#[test]
fn doubled_comma_is_refused() {
    assert_eq!(refused("test_a,, test_b").position, 2);
    assert_eq!(refused("test_a, test_b,,").position, 4);
}

#[test]
fn keyword_is_no_name() {
    assert_eq!(refused("fn").position, 0);
    assert_eq!(refused("test_a, self").position, 2);
    assert_eq!(refused("_").position, 0);
}

#[test]
fn other_token_kinds_are_refused() {
    assert_eq!(refused("1").position, 0);
    assert_eq!(refused("\"test_a\"").position, 0);
    assert_eq!(refused("test_a, (test_b)").position, 2);
    assert_eq!(refused("test_a; test_b").position, 1);
    assert_eq!(refused("test_a, 'b").position, 2);
    assert_eq!(refused("a::b").position, 1);
}

#[test]
fn message_says_what_was_expected() {
    assert_eq!(refused("1").message(), "expected identifier");
    assert_eq!(refused("test_a,, test_b").message(), "expected identifier");
    assert_eq!(refused("test_a test_b").message(), "expected `,`");
    assert_eq!(MalformedArgs { position: 7 }.message(), "expected `,`");
    assert_eq!(MalformedArgs { position: 8 }.message(), "expected identifier");
}

fn token(kind: TokenKind, text: &str) -> Token {
    Token { kind, text: text.to_string() }
}

#[test]
fn classify_tells_tokens_apart_by_kind_and_text() {
    let tokens = vec![
        token(TokenKind::Ident, "test_a"),
        token(TokenKind::Punct, ","),
        token(TokenKind::Ident, "fn"),
        token(TokenKind::Literal, "1"),
        token(TokenKind::Ident, "r#fn"),
        token(TokenKind::Group, "(a , b)"),
        token(TokenKind::Punct, "+"),
        token(TokenKind::Ident, "_"),
        token(TokenKind::Ident, "tést"),
    ];
    let kinds = classify(&tokens);
    assert_eq!(kinds.len(), tokens.len());
    assert!(matches!(&kinds[0], ArgToken::Name(name) if name == "test_a"));
    assert!(matches!(&kinds[1], ArgToken::Comma));
    assert!(matches!(&kinds[2], ArgToken::Other));
    assert!(matches!(&kinds[3], ArgToken::Other));
    assert!(matches!(&kinds[4], ArgToken::Name(name) if name == "r#fn"));
    assert!(matches!(&kinds[5], ArgToken::Other));
    assert!(matches!(&kinds[6], ArgToken::Other));
    assert!(matches!(&kinds[7], ArgToken::Other));
    assert!(matches!(&kinds[8], ArgToken::Name(name) if name == "tést"));
}

#[test]
fn classify_goes_by_the_kind_before_the_text() {
    let tokens = vec![
        token(TokenKind::Group, "test_a"),
        token(TokenKind::Literal, "test_a"),
        token(TokenKind::Punct, "test_a"),
        token(TokenKind::Group, ","),
        token(TokenKind::Literal, ","),
        token(TokenKind::Ident, ","),
    ];
    for kind in classify(&tokens) {
        assert!(matches!(kind, ArgToken::Other));
    }
}

#[test]
fn group_without_brackets_is_no_name() {
    let inner: TokenStream = "test_a".parse().expect("a word");
    let group = TokenTree::Group(Group::new(Delimiter::None, inner));
    assert_eq!(group.to_string(), "test_a");
    let stream = TokenStream::from(group);
    assert_eq!(Args::parse(&stream).expect_err("a group").position, 0);
}

#[test]
fn classify_of_nothing_is_nothing() {
    assert!(classify(&Vec::new()).is_empty());
}

#[test]
fn from_tokens_reads_a_list() {
    let list = vec![
        ArgToken::Name("b".to_string()),
        ArgToken::Comma,
        ArgToken::Name("a".to_string()),
        ArgToken::Comma,
        ArgToken::Name("b".to_string()),
        ArgToken::Comma,
    ];
    let args = Args::from_tokens(&list).expect("a list");
    assert_eq!(names(&args), vec!["b".to_string(), "a".to_string()]);
}

#[test]
fn from_tokens_names_the_first_misfit() {
    let other_first = vec![ArgToken::Other, ArgToken::Other];
    assert_eq!(Args::from_tokens(&other_first).unwrap_err().position, 0);
    let name_for_comma = vec![
        ArgToken::Name("a".to_string()),
        ArgToken::Name("b".to_string()),
        ArgToken::Other,
    ];
    assert_eq!(Args::from_tokens(&name_for_comma).unwrap_err().position, 1);
    let other_for_comma = vec![ArgToken::Name("a".to_string()), ArgToken::Other];
    assert_eq!(Args::from_tokens(&other_for_comma).unwrap_err().position, 1);
    let comma_for_name = vec![
        ArgToken::Name("a".to_string()),
        ArgToken::Comma,
        ArgToken::Comma,
    ];
    assert_eq!(Args::from_tokens(&comma_for_name).unwrap_err().position, 2);
}

#[test]
fn from_tokens_of_nothing_is_the_empty_set() {
    let args = Args::from_tokens(&Vec::new()).expect("the empty list");
    assert!(args.is_empty());
}

#[test]
fn many_repetitions_count_once() {
    let mut text = String::new();
    for round in 0..50 {
        text.push_str(if round % 2 == 0 { "even, " } else { "odd, " });
    }
    let args = parsed(&text);
    assert_eq!(names(&args), vec!["even".to_string(), "odd".to_string()]);
}
