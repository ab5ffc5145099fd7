use deepclone::attrs::Strategy;
use deepclone::derive::{bind_fields, clone_fields, expand, BodySpec, FieldSpec, FieldsSpec, VariantSpec};

fn field(member: &str, strategy: Strategy, with: &str) -> FieldSpec {
    FieldSpec { member: member.to_string(), strategy, with: with.to_string() }
}

#[test]
fn a_named_struct_clones_every_field_through_self() {
    let fields = FieldsSpec::Named(vec![
        field("a", Strategy::Deep, ""),
        field("r#type", Strategy::Clone, ""),
        field("c", Strategy::With, "my::copy"),
        field("d", Strategy::Default, ""),
    ]);
    assert_eq!(
        clone_fields("Self", &fields, false),
        "Self { a: ::deepclone::DeepClone::deep_clone_in(&self.a, cloner), \
         r#type: ::core::clone::Clone::clone(&self.r#type), \
         c: my::copy(&self.c, cloner), \
         d: ::core::default::Default::default(), }"
    );
}

#[test]
fn a_tuple_struct_clones_by_index() {
    let fields = FieldsSpec::Unnamed(vec![field("0", Strategy::Deep, ""), field("1", Strategy::Clone, "")]);
    assert_eq!(
        clone_fields("Self", &fields, false),
        "Self(::deepclone::DeepClone::deep_clone_in(&self.0, cloner), \
         ::core::clone::Clone::clone(&self.1), )"
    );
}

#[test]
fn a_unit_shape_is_its_constructor() {
    assert_eq!(clone_fields("Self", &FieldsSpec::Unit, false), "Self");
    assert_eq!(clone_fields("Self::Empty", &FieldsSpec::Unit, true), "Self::Empty");
    assert_eq!(bind_fields(&FieldsSpec::Unit), "");
    assert_eq!(clone_fields("Self", &FieldsSpec::Named(Vec::new()), false), "Self { }");
    assert_eq!(bind_fields(&FieldsSpec::Unnamed(Vec::new())), "()");
}

#[test]
fn a_variant_reads_the_bindings_of_its_pattern() {
    let named = FieldsSpec::Named(vec![field("r#type", Strategy::Deep, ""), field("b", Strategy::Clone, "")]);
    assert_eq!(bind_fields(&named), " { r#type: field_type, b: field_b, }");
    assert_eq!(
        clone_fields("Self::V", &named, true),
        "Self::V { r#type: ::deepclone::DeepClone::deep_clone_in(field_type, cloner), \
         b: ::core::clone::Clone::clone(field_b), }"
    );
    let unnamed = FieldsSpec::Unnamed(vec![field("0", Strategy::With, "f")]);
    assert_eq!(bind_fields(&unnamed), "(field_0, )");
    assert_eq!(clone_fields("Self::T", &unnamed, true), "Self::T(f(field_0, cloner), )");
}

#[test]
fn a_struct_impl_carries_own_and_generated_bounds() {
    let body = BodySpec::Struct(FieldsSpec::Named(vec![field("x", Strategy::Deep, "")]));
    assert_eq!(
        expand("Pair", "< T >", "< T >", vec!["T: Send".to_string()], vec!["T".to_string()], None, false, &body),
        "#[automatically_derived] impl< T > ::deepclone::DeepClone for Pair< T > where \
         T: Send, T: ::deepclone::DeepClone, \
         { fn deep_clone_in(&self, cloner: &mut ::deepclone::Cloner) -> Self { \
         Self { x: ::deepclone::DeepClone::deep_clone_in(&self.x, cloner), } } }"
    );
}

#[test]
fn a_container_bound_keeps_the_own_clause() {
    let body = BodySpec::Struct(FieldsSpec::Unit);
    assert_eq!(
        expand(
            "Unit",
            "< T >",
            "< T >",
            vec!["T: Send".to_string()],
            vec!["T".to_string()],
            Some(vec!["T: Copy".to_string()]),
            false,
            &body
        ),
        "#[automatically_derived] impl< T > ::deepclone::DeepClone for Unit< T > where \
         T: Send, T: Copy, \
         { fn deep_clone_in(&self, cloner: &mut ::deepclone::Cloner) -> Self { Self } }"
    );
}

#[test]
fn a_type_cloned_whole_ignores_its_fields() {
    let body = BodySpec::Struct(FieldsSpec::Named(vec![field("value", Strategy::Deep, "")]));
    assert_eq!(
        expand("Holder", "", "", Vec::new(), Vec::new(), None, true, &body),
        "#[automatically_derived] impl ::deepclone::DeepClone for Holder where \
         { fn deep_clone_in(&self, cloner: &mut ::deepclone::Cloner) -> Self { \
         ::core::clone::Clone::clone(self) } }"
    );
    assert_eq!(
        expand("H", "< T >", "< T >", Vec::new(), vec!["T".to_string()], None, true, &body),
        "#[automatically_derived] impl< T > ::deepclone::DeepClone for H< T > where \
         T: ::core::clone::Clone, \
         { fn deep_clone_in(&self, cloner: &mut ::deepclone::Cloner) -> Self { \
         ::core::clone::Clone::clone(self) } }"
    );
}

#[test]
fn an_enum_matches_every_variant() {
    let body = BodySpec::Enum(vec![
        VariantSpec { name: "A".to_string(), fields: FieldsSpec::Unit },
        VariantSpec {
            name: "B".to_string(),
            fields: FieldsSpec::Unnamed(vec![field("0", Strategy::Deep, "")]),
        },
    ]);
    assert_eq!(
        expand("E", "", "", Vec::new(), Vec::new(), None, false, &body),
        "#[automatically_derived] impl ::deepclone::DeepClone for E where \
         { fn deep_clone_in(&self, cloner: &mut ::deepclone::Cloner) -> Self { \
         match self { Self::A => Self::A, \
         Self::B(field_0, ) => Self::B(::deepclone::DeepClone::deep_clone_in(field_0, cloner), ), } } }"
    );
}

#[test]
fn an_enum_without_variants_matches_nothing() {
    let body = BodySpec::Enum(Vec::new());
    assert_eq!(
        expand("Never", "", "", Vec::new(), Vec::new(), None, false, &body),
        "#[automatically_derived] impl ::deepclone::DeepClone for Never where \
         { fn deep_clone_in(&self, cloner: &mut ::deepclone::Cloner) -> Self { match self { } } }"
    );
}
