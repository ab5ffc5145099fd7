use deepclone::attrs::{
    binding_ident, bound_text, container_word, derivable, field_attribute_allowed,
    field_expression, field_word, generated_bounds, union_message, where_predicates,
    whole_clone_expression, ContainerAttrError, ContainerChoice, ContainerWord, DataKind,
    FieldAttrError, FieldChoice, Strategy, ATTRIBUTE,
};

#[test]
fn the_attribute_is_named_deepclone() {
    assert_eq!(ATTRIBUTE, "deepclone");
}

#[test]
fn field_words_name_their_strategies() {
    assert_eq!(field_word(Some("clone")), Ok(Strategy::Clone));
    assert_eq!(field_word(Some("default")), Ok(Strategy::Default));
    assert_eq!(field_word(Some("with")), Ok(Strategy::With));
}

#[test]
fn unknown_field_words_are_refused() {
    assert_eq!(field_word(Some("shallow")), Err(FieldAttrError::Unknown));
    assert_eq!(field_word(Some("Clone")), Err(FieldAttrError::Unknown));
    assert_eq!(field_word(Some("deep")), Err(FieldAttrError::Unknown));
    assert_eq!(field_word(Some("")), Err(FieldAttrError::Unknown));
    assert_eq!(field_word(None), Err(FieldAttrError::Unknown));
}

#[test]
fn a_field_without_attributes_is_deep() {
    assert_eq!(FieldChoice::new().strategy(), Strategy::Deep);
}

#[test]
fn a_field_takes_one_strategy() {
    let mut choice = FieldChoice::new();
    assert_eq!(choice.pick(Strategy::Clone), Ok(()));
    assert_eq!(choice.strategy(), Strategy::Clone);
    assert_eq!(choice.pick(Strategy::Default), Err(FieldAttrError::Conflicting));
    assert_eq!(choice.strategy(), Strategy::Clone, "the first strategy stays");
    assert_eq!(choice.pick(Strategy::Clone), Err(FieldAttrError::Conflicting));
}

#[test]
fn the_container_knows_bound_and_clone() {
    assert_eq!(container_word(Some("bound")), Ok(ContainerWord::Bound));
    assert_eq!(container_word(Some("clone")), Ok(ContainerWord::Clone));
    assert_eq!(container_word(Some("transparent")), Err(ContainerAttrError::Unknown));
    assert_eq!(container_word(Some("default")), Err(ContainerAttrError::Unknown));
    assert_eq!(container_word(None), Err(ContainerAttrError::Unknown));
}

#[test]
fn a_bound_must_be_a_string() {
    assert_eq!(bound_text(Some("T: Clone")), Ok("T: Clone"));
    assert_eq!(bound_text::<&str>(None), Err(ContainerAttrError::NotAString));
}

#[test]
fn a_later_bound_replaces_an_earlier_one() {
    let mut choice: ContainerChoice<&str> = ContainerChoice::new();
    assert_eq!(choice.into_parts(), (false, None));
    let mut choice2: ContainerChoice<&str> = ContainerChoice::new();
    choice2.replace_bound("T: Copy");
    choice2.replace_bound("T: Clone");
    assert_eq!(choice2.into_parts(), (false, Some("T: Clone")));
    choice = ContainerChoice::new();
    choice.clone_whole();
    choice.replace_bound("T: Send");
    assert_eq!(choice.into_parts(), (true, Some("T: Send")));
}

#[test]
fn field_attributes_are_refused_under_a_whole_clone() {
    assert_eq!(field_attribute_allowed(false), Ok(()));
    assert_eq!(field_attribute_allowed(true), Err(FieldAttrError::UnderWholeClone));
}

#[test]
fn unions_are_refused() {
    assert!(derivable(DataKind::Struct));
    assert!(derivable(DataKind::Enum));
    assert!(!derivable(DataKind::Union));
    assert_eq!(
        union_message(),
        "`DeepClone` cannot be derived for unions, because which field is live is not known statically"
    );
}

#[test]
fn bindings_are_prefixed_and_sanitised() {
    assert_eq!(binding_ident("name"), "field_name");
    assert_eq!(binding_ident("0"), "field_0");
    assert_eq!(binding_ident("a.b c"), "field_a_b_c");
    assert_eq!(binding_ident(""), "field_");
}

#[test]
fn raw_identifiers_bind_without_their_prefix() {
    assert_eq!(binding_ident("r#type"), "field_type");
    assert_eq!(binding_ident("r#match"), "field_match");
    assert_eq!(binding_ident("r"), "field_r");
    assert_eq!(binding_ident("rx"), "field_rx");
}

#[test]
fn every_parameter_gets_a_deep_clone_bound() {
    let params = vec!["T".to_string(), "U".to_string()];
    assert_eq!(
        generated_bounds(&params, false),
        vec!["T: ::deepclone::DeepClone".to_string(), "U: ::deepclone::DeepClone".to_string()]
    );
    assert_eq!(generated_bounds(&Vec::new(), false), Vec::<String>::new());
}

#[test]
fn a_type_cloned_whole_bounds_its_parameters_by_clone() {
    let params = vec!["T".to_string()];
    assert_eq!(generated_bounds(&params, true), vec!["T: ::core::clone::Clone".to_string()]);
}

#[test]
fn the_own_where_clause_comes_first() {
    let own = vec!["T: Send"];
    let generated = vec!["T: ::deepclone::DeepClone"];
    assert_eq!(
        where_predicates(own.clone(), generated.clone(), None),
        vec!["T: Send", "T: ::deepclone::DeepClone"]
    );
}

#[test]
fn a_container_bound_replaces_only_the_generated_bounds() {
    let own = vec!["T: Send"];
    let generated = vec!["T: ::deepclone::DeepClone", "U: ::deepclone::DeepClone"];
    assert_eq!(
        where_predicates(own, generated, Some(vec!["T: Copy"])),
        vec!["T: Send", "T: Copy"]
    );
    assert_eq!(
        where_predicates(Vec::new(), vec!["T: ::deepclone::DeepClone"], Some(Vec::new())),
        Vec::<&str>::new()
    );
}

#[test]
fn each_strategy_has_its_expression() {
    assert_eq!(
        field_expression(Strategy::Deep, "&self.a", "ignored"),
        "::deepclone::DeepClone::deep_clone_in(&self.a, cloner)"
    );
    assert_eq!(
        field_expression(Strategy::Clone, "&self.a", "ignored"),
        "::core::clone::Clone::clone(&self.a)"
    );
    assert_eq!(
        field_expression(Strategy::With, "field_0", "my::copy"),
        "my::copy(field_0, cloner)"
    );
    assert_eq!(
        field_expression(Strategy::Default, "&self.a", "ignored"),
        "::core::default::Default::default()"
    );
}

#[test]
fn a_whole_clone_ignores_the_cloner() {
    assert_eq!(whole_clone_expression(), "::core::clone::Clone::clone(self)");
}

#[test]
fn messages_match_the_macro() {
    assert_eq!(
        FieldAttrError::Unknown.message(),
        "unknown `deepclone` field attribute, expected `clone`, `default`, or `with`"
    );
    assert_eq!(FieldAttrError::Conflicting.message(), "conflicting `deepclone` field attributes");
    assert_eq!(
        FieldAttrError::UnderWholeClone.message(),
        "a type cloned whole by `#[deepclone(clone)]` takes no `deepclone` field attributes"
    );
    assert_eq!(
        ContainerAttrError::Unknown.message(),
        "unknown `deepclone` container attribute, expected `bound = \"..\"` or `clone`"
    );
    assert_eq!(
        ContainerAttrError::NotAString.message(),
        "`bound` expects a string, as in `bound = \"T: Copy\"`"
    );
}

#[test]
fn the_private_token_exists() {
    let token = deepclone::Private;
    assert_eq!(format!("{:?}", token), "Private");
}
