use proc_macro2::{Delimiter, Spacing, TokenStream, TokenTree};
use tryfrom_via_fromstr::emit::emit;
use tryfrom_via_fromstr::error::TransformError;
use tryfrom_via_fromstr::message::{mismatch, not_a_path, not_simple, recognized};
use tryfrom_via_fromstr::message::{BARE, DOTTED, NEGATION, NON_TRAIT, NO_ARGUMENTS, ROOTED};
use tryfrom_via_fromstr::syntax::ImplDecl;
use tryfrom_via_fromstr::{expand, parse_args, require_impl_for_fromstr, tryfrom_via_fromstr};

fn tokens(src: &str) -> TokenStream {
    src.parse().expect("the source lexes")
}

fn parsed(src: &str) -> ImplDecl {
    match ImplDecl::parse(tokens(src)) {
        Ok(decl) => decl,
        Err(e) => panic!("{}", e),
    }
}

fn describe_into(stream: TokenStream, out: &mut Vec<String>) {
    for tree in stream {
        match tree {
            TokenTree::Ident(ident) => out.push(ident.to_string()),
            TokenTree::Literal(literal) => out.push(literal.to_string()),
            TokenTree::Punct(punct) => out.push(match punct.spacing() {
                Spacing::Joint => format!("{}+", punct.as_char()),
                Spacing::Alone => format!("{}", punct.as_char()),
            }),
            TokenTree::Group(group) => {
                let (open, close) = match group.delimiter() {
                    Delimiter::Parenthesis => ("(", ")"),
                    Delimiter::Brace => ("{", "}"),
                    Delimiter::Bracket => ("[", "]"),
                    Delimiter::None => ("<<", ">>"),
                };
                out.push(open.to_string());
                describe_into(group.stream(), out);
                out.push(close.to_string());
            }
        }
    }
}

fn describe(stream: TokenStream) -> String {
    let mut out = Vec::new();
    describe_into(stream, &mut out);
    out.join(" ")
}

const DERIVED_HEAD: &str = ":+ : std :+ : convert :+ : TryFrom < & '+ tryfrom_str_lifetime str > for";

const DERIVED_BODY: &str = "{ type Error = < Self as :+ : std :+ : str :+ : FromStr > :+ : Err ; \
    fn try_from ( s : & '+ tryfrom_str_lifetime str ) -+ > Result < Self , Self :+ : Error > \
    { use :+ : std :+ : str :+ : FromStr ; Self :+ : from_str ( s ) } }";

#[test]
fn emit_writes_the_parts_in_their_places() {
    let out = emit(
        &tokens("struct Declaration;"),
        &tokens("< 'x, G>"),
        &tokens("some::Subject<G>"),
        &tokens("where G: Bound"),
    );
    assert_eq!(
        describe(out),
        format!(
            "struct Declaration ; impl < '+ x , G > {} some :+ : Subject < G > where G : Bound {}",
            DERIVED_HEAD, DERIVED_BODY
        )
    );
}

#[test]
fn emit_writes_the_fixed_tokens_alone() {
    let empty = TokenStream::new();
    let out = emit(&empty, &empty, &empty, &empty);
    assert_eq!(describe(out), format!("impl {} {}", DERIVED_HEAD, DERIVED_BODY));
}

#[test]
fn emit_does_not_change_its_parts() {
    let declaration = tokens("impl FromStr for A {}");
    let generics = tokens("<'l>");
    let subject = tokens("A");
    let where_clause = tokens("");
    let _out = emit(&declaration, &generics, &subject, &where_clause);
    assert_eq!(declaration.to_string(), "impl FromStr for A { }");
    assert_eq!(generics.to_string(), "<'l >");
    assert_eq!(subject.to_string(), "A");
    assert!(where_clause.is_empty());
}

#[test]
fn expand_writes_the_declaration_then_the_derived_impl() {
    let decl = parsed("impl<T> std::str::FromStr for Wrapper<T> where T: FromStr {}");
    let out = expand(&decl).unwrap();
    assert_eq!(
        describe(out),
        format!(
            "impl < T > std :+ : str :+ : FromStr for Wrapper < T > where T : FromStr {{ }} \
             impl < '+ tryfrom_str_lifetime , T > {} Wrapper < T > where T : FromStr {}",
            DERIVED_HEAD, DERIVED_BODY
        )
    );
}

#[test]
fn expand_carries_no_where_clause_where_there_is_none() {
    let decl = parsed("impl<T> FromStr for Wrapper<T> {}");
    let out = expand(&decl).unwrap();
    assert_eq!(
        describe(out),
        format!(
            "impl < T > FromStr for Wrapper < T > {{ }} \
             impl < '+ tryfrom_str_lifetime , T > {} Wrapper < T > {}",
            DERIVED_HEAD, DERIVED_BODY
        )
    );
}

#[test]
fn expand_refuses_as_the_checks_say() {
    match expand(&parsed("impl MyType {}")) {
        Err(TransformError::Shape(d)) => assert_eq!(d.message, NON_TRAIT),
        other => panic!("{:?}", other),
    }
    match expand(&parsed("impl !FromStr for MyType {}")) {
        Err(TransformError::Shape(d)) => assert_eq!(d.message, NEGATION),
        other => panic!("{:?}", other),
    }
    match expand(&parsed("impl Display for MyType {}")) {
        Err(TransformError::TraitMismatch(d)) => assert_eq!(d.message, mismatch("Display")),
        other => panic!("{:?}", other),
    }
    match expand(&parsed("impl FromStr for [u8] {}")) {
        Err(TransformError::SubjectShape(d)) => assert_eq!(d.message, not_a_path("[u8]")),
        other => panic!("{:?}", other),
    }
    match expand(&parsed("impl FromStr for <A as B>::C {}")) {
        Err(TransformError::SubjectShape(d)) => {
            assert_eq!(d.message, not_simple("< A as B > :: C"))
        }
        other => panic!("{:?}", other),
    }
}

#[test]
fn parse_args_accepts_no_arguments() {
    assert!(parse_args(TokenStream::new()).is_ok());
    assert!(parse_args(tokens("   ")).is_ok());
}

#[test]
fn parse_args_refuses_any_argument() {
    for args in ["x", "1", ",", "()", "a = b", "\"text\""] {
        match parse_args(tokens(args)) {
            Err(TransformError::Arguments(d)) => assert_eq!(d.message, NO_ARGUMENTS),
            other => panic!("{:?}", other),
        }
    }
    match parse_args(tokens("  first, second")) {
        Err(TransformError::Arguments(d)) => {
            assert_eq!(d.message, "no arguments supported");
            assert_eq!(d.span.start().column, 2);
            assert_eq!(d.span.end().column, 15);
        }
        other => panic!("{:?}", other),
    }
}

#[test]
fn require_accepts_the_recognized_spellings() {
    assert!(require_impl_for_fromstr(&parsed("impl FromStr for A {}")).is_ok());
    assert!(require_impl_for_fromstr(&parsed("impl std::str::FromStr for A {}")).is_ok());
    assert!(require_impl_for_fromstr(&parsed("impl ::std::str::FromStr for A {}")).is_ok());
    assert!(require_impl_for_fromstr(&parsed("impl FromStr for &A {}")).is_ok());
}

#[test]
fn require_refuses_every_other_trait() {
    match require_impl_for_fromstr(&parsed("impl ::core::str::FromStr for A {}")) {
        Err(TransformError::TraitMismatch(d)) => {
            assert_eq!(
                d.message,
                "expecting implementation for one of \
                 [\"FromStr\", \"std :: str :: FromStr\", \":: std :: str :: FromStr\"], \
                 found \":: core :: str :: FromStr\""
            );
            assert_eq!(d.span.start().column, 5);
            assert_eq!(d.span.end().column, 25);
        }
        other => panic!("{:?}", other),
    }
    match require_impl_for_fromstr(&parsed("impl FromStr<T> for A {}")) {
        Err(TransformError::TraitMismatch(d)) => assert_eq!(d.message, mismatch("FromStr < T >")),
        other => panic!("{:?}", other),
    }
}

#[test]
fn require_refuses_an_impl_without_a_trait() {
    match require_impl_for_fromstr(&parsed("impl A {}")) {
        Err(TransformError::Shape(d)) => assert_eq!(d.message, NON_TRAIT),
        other => panic!("{:?}", other),
    }
    match require_impl_for_fromstr(&parsed("impl !FromStr for A {}")) {
        Err(TransformError::Shape(d)) => assert_eq!(d.message, NEGATION),
        other => panic!("{:?}", other),
    }
}

#[test]
fn recognized_takes_the_three_spellings_and_no_other() {
    assert!(recognized("FromStr"));
    assert!(recognized("std :: str :: FromStr"));
    assert!(recognized(":: std :: str :: FromStr"));
    assert!(recognized(BARE) && recognized(DOTTED) && recognized(ROOTED));
    for other in [
        "",
        "fromstr",
        "FromStr ",
        " FromStr",
        "std::str::FromStr",
        "::std::str::FromStr",
        "str :: FromStr",
        "core :: str :: FromStr",
        "my :: std :: str :: FromStr",
        "FS",
    ] {
        assert!(!recognized(other), "{:?}", other);
    }
}

#[test]
fn the_messages_quote_what_was_found() {
    assert_eq!(not_a_path("& T"), "expected path, found \"& T\"");
    assert_eq!(not_a_path(""), "expected path, found \"\"");
    assert_eq!(not_a_path("a\"b\\c"), "expected path, found \"a\\\"b\\\\c\"");
    assert_eq!(not_simple("< T as U > :: V"), "expected simple path, found \"< T as U > :: V\"");
    assert_eq!(
        mismatch("fmt :: Display"),
        "expecting implementation for one of \
         [\"FromStr\", \"std :: str :: FromStr\", \":: std :: str :: FromStr\"], \
         found \"fmt :: Display\""
    );
    assert_eq!(mismatch("x"), format!("expecting implementation for one of {:?}, found {:?}", [BARE, DOTTED, ROOTED], "x"));
}

#[test]
fn the_attribute_gives_the_expansion() {
    let out = tryfrom_via_fromstr(TokenStream::new(), tokens("impl FromStr for A {}"));
    assert_eq!(
        describe(out),
        format!(
            "impl FromStr for A {{ }} impl < '+ tryfrom_str_lifetime > {} A {}",
            DERIVED_HEAD, DERIVED_BODY
        )
    );
}

#[test]
fn the_attribute_reports_a_refusal_to_the_compiler() {
    let out = tryfrom_via_fromstr(tokens("nope"), tokens("impl FromStr for A {}"));
    assert_eq!(
        describe(out),
        ":+ : core :+ : compile_error ! { \"no arguments supported\" }"
    );
    let out = tryfrom_via_fromstr(TokenStream::new(), tokens("impl A {}"));
    assert_eq!(
        describe(out),
        ":+ : core :+ : compile_error ! { \"non-trait implementation unsupported\" }"
    );
    let out = tryfrom_via_fromstr(TokenStream::new(), tokens("enum E {}"));
    let expected = syn::parse2::<syn::ItemImpl>(tokens("enum E {}")).err().unwrap();
    assert_eq!(describe(out), describe(expected.into_compile_error()));
}
