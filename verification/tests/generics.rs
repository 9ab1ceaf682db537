use proc_macro2::TokenStream;
use quote::ToTokens;
use syn::{GenericParam, Generics, ItemImpl};
use tryfrom_via_fromstr::generics::{prefix_impl_lifetime, LIFETIME};

fn generics_of(src: &str) -> Generics {
    let item: ItemImpl = syn::parse_str(src).expect("the source is an impl block");
    item.generics
}

fn printed(node: &impl ToTokens) -> String {
    node.to_token_stream().to_string()
}

fn params(generics: &Generics) -> Vec<String> {
    generics.params.iter().map(|param| printed(param)).collect()
}

#[test]
fn the_added_lifetime_has_its_fixed_name() {
    assert_eq!(LIFETIME, "'tryfrom_str_lifetime");
}

#[test]
fn prefix_of_an_empty_list_is_the_lifetime_alone() {
    let declared = generics_of("impl FromStr for MyType {}");
    let derived = prefix_impl_lifetime(&declared);
    assert_eq!(params(&derived), vec!["'tryfrom_str_lifetime".to_string()]);
    assert!(derived.lt_token.is_none());
    assert!(derived.gt_token.is_none());
    assert!(derived.where_clause.is_none());
    assert!(!derived.params.trailing_punct());
    assert_eq!(printed(&derived.split_for_impl().0), "< 'tryfrom_str_lifetime >");
}

#[test]
fn prefix_puts_the_lifetime_first_and_keeps_the_parameters() {
    let declared = generics_of("impl<T> FromStr for Wrapper<T> {}");
    let derived = prefix_impl_lifetime(&declared);
    assert_eq!(params(&derived), vec!["'tryfrom_str_lifetime".to_string(), "T".to_string()]);
    assert!(derived.lt_token.is_some());
    assert!(derived.gt_token.is_some());
    assert_eq!(printed(&derived.split_for_impl().0), "< 'tryfrom_str_lifetime , T >");
}

#[test]
fn prefix_keeps_order_count_and_bounds() {
    let declared = generics_of(
        "impl<'a, 'b: 'a, T: Clone + 'a, U, const N: usize> FromStr for Grid<'a, 'b, T, U, N> {}",
    );
    let derived = prefix_impl_lifetime(&declared);
    let mut expected = vec!["'tryfrom_str_lifetime".to_string()];
    expected.extend(params(&declared));
    assert_eq!(params(&derived), expected);
    assert_eq!(derived.params.len(), declared.params.len() + 1);
    assert_eq!(
        params(&derived),
        vec![
            "'tryfrom_str_lifetime",
            "'a",
            "'b : 'a",
            "T : Clone + 'a",
            "U",
            "const N : usize"
        ]
    );
    assert!(!derived.params.trailing_punct());
}

#[test]
fn prefix_adds_a_lifetime_without_bounds_or_attributes() {
    let declared = generics_of("impl<T> FromStr for Wrapper<T> {}");
    let derived = prefix_impl_lifetime(&declared);
    match &derived.params[0] {
        GenericParam::Lifetime(param) => {
            assert!(param.attrs.is_empty());
            assert!(param.colon_token.is_none());
            assert!(param.bounds.is_empty());
            assert_eq!(param.lifetime.ident.to_string(), "tryfrom_str_lifetime");
        }
        _ => panic!("the first parameter is no lifetime"),
    }
}

#[test]
fn prefix_leaves_the_where_clause_behind() {
    let declared = generics_of("impl<T> FromStr for Wrapper<T> where T: FromStr {}");
    assert!(declared.where_clause.is_some());
    let derived = prefix_impl_lifetime(&declared);
    assert!(derived.where_clause.is_none());
    assert_eq!(printed(&derived.split_for_impl().2), "");
    assert_eq!(params(&derived), vec!["'tryfrom_str_lifetime".to_string(), "T".to_string()]);
}

#[test]
fn prefix_takes_a_list_with_a_trailing_comma() {
    let declared = generics_of("impl<T, U,> FromStr for Pair<T, U> {}");
    assert!(declared.params.trailing_punct());
    let derived = prefix_impl_lifetime(&declared);
    assert_eq!(
        params(&derived),
        vec!["'tryfrom_str_lifetime".to_string(), "T".to_string(), "U".to_string()]
    );
    assert!(!derived.params.trailing_punct());
}

#[test]
fn prefix_places_the_lifetime_at_the_parameter_list() {
    let stream: TokenStream = "impl  <T> FromStr for Wrapper<T> {}".parse().unwrap();
    let item: ItemImpl = syn::parse2(stream).unwrap();
    let derived = prefix_impl_lifetime(&item.generics);
    match &derived.params[0] {
        GenericParam::Lifetime(param) => {
            assert_eq!(param.lifetime.apostrophe.start().column, 6);
            assert_eq!(param.lifetime.ident.span().start().column, 6);
        }
        _ => panic!("the first parameter is no lifetime"),
    }
}

#[test]
fn prefix_does_not_change_its_argument() {
    let declared = generics_of("impl<T> FromStr for Wrapper<T> where T: FromStr {}");
    let before = (params(&declared), printed(&declared.where_clause));
    let _derived = prefix_impl_lifetime(&declared);
    assert_eq!((params(&declared), printed(&declared.where_clause)), before);
}
