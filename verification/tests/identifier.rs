use redstone_signal::data_types::{Identifier, IdentifierError};
use std::str::FromStr;

fn text(s: &str) -> String {
    s.to_string()
}

#[test]
fn identifier_new_takes_matching_parts() {
    let id = Identifier::new(text("minecraft"), text("stone")).unwrap();
    assert_eq!(id.namespace, "minecraft");
    assert_eq!(id.value, "stone");
    let id = Identifier::new(text("my_mod.v2"), text("blocks/ore-1")).unwrap();
    assert_eq!(id.namespace, "my_mod.v2");
    assert_eq!(id.value, "blocks/ore-1");
}

#[test]
fn identifier_new_refuses_a_namespace_without_a_match() {
    assert_eq!(Identifier::new(text(""), text("stone")), Err(IdentifierError::NameSpace));
    assert_eq!(Identifier::new(text("{~}"), text("stone")), Err(IdentifierError::NameSpace));
    assert_eq!(Identifier::new(text("   "), text("")), Err(IdentifierError::NameSpace));
}

#[test]
fn identifier_new_refuses_a_value_without_a_match() {
    assert_eq!(Identifier::new(text("minecraft"), text("")), Err(IdentifierError::Value));
    assert_eq!(Identifier::new(text("minecraft"), text("~ ~")), Err(IdentifierError::Value));
}

#[test]
fn identifier_patterns_match_anywhere() {
    assert!(Identifier::new(text("{a}"), text("~b~")).is_ok());
    assert!(Identifier::new(text("UPPER"), text("Mixed Case")).is_ok());
    assert!(Identifier::new(text("a:b"), text("!?/")).is_ok());
}

#[test]
fn identifier_from_searches_goes_by_the_outcomes() {
    assert_eq!(
        Identifier::from_searches(text("a"), text("b"), Some(true), Some(true)),
        Ok(Identifier { namespace: text("a"), value: text("b") })
    );
    assert_eq!(
        Identifier::from_searches(text("a"), text("b"), Some(false), Some(true)),
        Err(IdentifierError::NameSpace)
    );
    assert_eq!(
        Identifier::from_searches(text("a"), text("b"), None, Some(false)),
        Err(IdentifierError::NameSpace)
    );
    assert_eq!(
        Identifier::from_searches(text("a"), text("b"), Some(true), Some(false)),
        Err(IdentifierError::Value)
    );
    assert_eq!(
        Identifier::from_searches(text("a"), text("b"), Some(true), None),
        Err(IdentifierError::Value)
    );
}

#[test]
fn identifier_from_str_splits_at_the_first_colon() {
    let id = Identifier::from_str("mymod:thing").unwrap();
    assert_eq!(id.namespace, "mymod");
    assert_eq!(id.value, "thing");
    let id = Identifier::from_str("a:b:c").unwrap();
    assert_eq!(id.namespace, "a");
    assert_eq!(id.value, "b:c");
    let id: Identifier = "x:path/to".parse().unwrap();
    assert_eq!(id.value, "path/to");
}

#[test]
fn identifier_from_str_defaults_the_namespace() {
    let id = Identifier::from_str("thing").unwrap();
    assert_eq!(id.namespace, "minecraft");
    assert_eq!(id.value, "thing");
}

#[test]
fn identifier_from_str_checks_the_parts() {
    assert_eq!(Identifier::from_str(":thing"), Err(IdentifierError::NameSpace));
    assert_eq!(Identifier::from_str("mymod:"), Err(IdentifierError::Value));
    assert_eq!(Identifier::from_str(""), Err(IdentifierError::Value));
    assert_eq!(Identifier::from_str("~:~"), Err(IdentifierError::NameSpace));
    assert_eq!(Identifier::from_str("a:~"), Err(IdentifierError::Value));
}

#[test]
fn identifier_to_string_joins_with_a_colon() {
    let id = Identifier::new(text("minecraft"), text("stone")).unwrap();
    assert_eq!(id.to_string(), "minecraft:stone");
    assert_eq!(Identifier::from_str("dirt").unwrap().to_string(), "minecraft:dirt");
    assert_eq!(Identifier::from_str("a:b:c").unwrap().to_string(), "a:b:c");
}
