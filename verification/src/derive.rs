//! The text of the impl `#[derive(DeepClone)]` generates.
//!
//! The macro describes the type it is applied to by plain values (each field's member, its
//! strategy and its `with` path; each variant's name and fields; the generics' text), and
//! the functions here build the impl's source text from them: the constructor that clones
//! every field through the one `cloner`, the pattern that binds an enum variant's fields, the
//! match over the variants, the where-clause, and the impl around them. The macro parses the
//! text back into tokens.

use crate::attrs::{
    binding_ident, binding_of, field_expression, field_expression_of, generated_bounds,
    parameter_trait, where_predicates, whole_clone_expression, Strategy,
};
use vstd::prelude::*;

verus! {

/// One field of a struct or of an enum variant.
#[derive(Debug)]
pub struct FieldSpec {
    /// The field's member as it prints: its name (`r#type` for a raw one) or its index.
    pub member: String,
    /// How the field is cloned.
    pub strategy: Strategy,
    /// The path of a `with` strategy's function; not read otherwise.
    pub with: String,
}

/// The fields of a struct or of an enum variant.
#[derive(Debug)]
pub enum FieldsSpec {
    /// `{ a: A, b: B }`
    Named(Vec<FieldSpec>),
    /// `(A, B)`
    Unnamed(Vec<FieldSpec>),
    /// No fields.
    Unit,
}

/// One variant of an enum.
#[derive(Debug)]
pub struct VariantSpec {
    pub name: String,
    pub fields: FieldsSpec,
}

/// The shape of the type the derive is applied to.
#[derive(Debug)]
pub enum BodySpec {
    Struct(FieldsSpec),
    Enum(Vec<VariantSpec>),
}

/// Items one after another, each followed by `, `.
pub open spec fn listed(items: Seq<Seq<char>>) -> Seq<char>
    decreases items.len(),
{
    if items.len() == 0 {
        Seq::empty()
    } else {
        listed(items.drop_last()) + items.last() + ", "@
    }
}

/// The fields in declaration order, none for a unit shape.
pub open spec fn field_list(fields: FieldsSpec) -> Seq<FieldSpec> {
    match fields {
        FieldsSpec::Named(fs) => fs@,
        FieldsSpec::Unnamed(fs) => fs@,
        FieldsSpec::Unit => Seq::empty(),
    }
}

/// Where a field's source value is read: through `self` in a struct, through the binding
/// of the arm's pattern in an enum variant.
pub open spec fn field_access(member: Seq<char>, in_variant: bool) -> Seq<char> {
    if in_variant {
        binding_of(member)
    } else {
        "&self."@ + member
    }
}

/// The expression that gives a field's copy.
pub open spec fn field_value(field: FieldSpec, in_variant: bool) -> Seq<char> {
    field_expression_of(field.strategy, field_access(field.member@, in_variant), field.with@)
}

/// A field's entry in its constructor: `member: value` for a named field, `value` otherwise.
pub open spec fn field_entry(field: FieldSpec, named: bool, in_variant: bool) -> Seq<char> {
    if named {
        field.member@ + ": "@ + field_value(field, in_variant)
    } else {
        field_value(field, in_variant)
    }
}

/// Whether the fields are named.
pub open spec fn is_named(fields: FieldsSpec) -> bool {
    fields is Named
}

/// The constructor's entries, one per field, in declaration order.
pub open spec fn field_entries(fields: FieldsSpec, in_variant: bool) -> Seq<Seq<char>> {
    Seq::new(
        field_list(fields).len(),
        |i: int| field_entry(field_list(fields)[i], is_named(fields), in_variant),
    )
}

/// The text before the constructor's entries.
pub open spec fn opening(fields: FieldsSpec) -> Seq<char> {
    match fields {
        FieldsSpec::Named(_) => " { "@,
        FieldsSpec::Unnamed(_) => "("@,
        FieldsSpec::Unit => Seq::empty(),
    }
}

/// The text after the constructor's entries.
pub open spec fn closing(fields: FieldsSpec) -> Seq<char> {
    match fields {
        FieldsSpec::Named(_) => "}"@,
        FieldsSpec::Unnamed(_) => ")"@,
        FieldsSpec::Unit => Seq::empty(),
    }
}

/// `ctor { a: .., b: .., }`, `ctor(.., ..,)` or `ctor`: the copy, built from the copy of
/// every field.
pub open spec fn clone_fields_of(ctor: Seq<char>, fields: FieldsSpec, in_variant: bool) -> Seq<char> {
    match fields {
        FieldsSpec::Unit => ctor,
        _ => ctor + opening(fields) + listed(field_entries(fields, in_variant)) + closing(fields),
    }
}

/// A field's entry in its variant's pattern: `member: binding` for a named field, `binding`
/// otherwise.
pub open spec fn pattern_entry(field: FieldSpec, named: bool) -> Seq<char> {
    if named {
        field.member@ + ": "@ + binding_of(field.member@)
    } else {
        binding_of(field.member@)
    }
}

/// The pattern's entries, one per field, in declaration order.
pub open spec fn pattern_entries(fields: FieldsSpec) -> Seq<Seq<char>> {
    Seq::new(field_list(fields).len(), |i: int| pattern_entry(field_list(fields)[i], is_named(fields)))
}

/// `{ a: field_a, .. }`, `(field_0, ..)` or nothing: the pattern that binds a variant's fields.
pub open spec fn bind_fields_of(fields: FieldsSpec) -> Seq<char> {
    match fields {
        FieldsSpec::Unit => Seq::empty(),
        _ => opening(fields) + listed(pattern_entries(fields)) + closing(fields),
    }
}

/// The arm of one variant: its pattern, and the copy built from the bindings.
pub open spec fn arm_of(variant: VariantSpec) -> Seq<char> {
    "Self::"@ + variant.name@ + bind_fields_of(variant.fields) + " => "@ + clone_fields_of(
        "Self::"@ + variant.name@,
        variant.fields,
        true,
    )
}

/// The arms, one per variant, in declaration order.
pub open spec fn arms_of(variants: Seq<VariantSpec>) -> Seq<Seq<char>> {
    Seq::new(variants.len(), |i: int| arm_of(variants[i]))
}

/// The body of `deep_clone_in`.
pub open spec fn body_of(body: BodySpec, whole: bool) -> Seq<char> {
    if whole {
        "::core::clone::Clone::clone(self)"@
    } else {
        match body {
            BodySpec::Struct(fields) => clone_fields_of("Self"@, fields, false),
            BodySpec::Enum(variants) => "match self { "@ + listed(arms_of(variants@)) + "}"@,
        }
    }
}

/// The texts of some strings.
pub open spec fn texts(strings: Seq<String>) -> Seq<Seq<char>> {
    Seq::new(strings.len(), |i: int| strings[i]@)
}

/// The impl's where-predicates: the type's own, then the bound of every type parameter or,
/// when the type names its own with `bound = ".."`, those in their place.
pub open spec fn predicates_of(own: Seq<String>, params: Seq<String>, container: Option<Vec<String>>, whole: bool) -> Seq<Seq<char>> {
    texts(own) + match container {
        Some(c) => texts(c@),
        None => Seq::new(params.len(), |i: int| params[i]@ + parameter_trait(whole)),
    }
}

/// The method's header, which names the one `cloner` every field is cloned through.
pub open spec fn method_head() -> Seq<char> {
    "{ fn deep_clone_in(&self, cloner: &mut ::deepclone::Cloner) -> Self { "@
}

/// The whole impl.
pub open spec fn impl_text_of(
    name: Seq<char>,
    impl_generics: Seq<char>,
    ty_generics: Seq<char>,
    own: Seq<String>,
    params: Seq<String>,
    container: Option<Vec<String>>,
    whole: bool,
    body: BodySpec,
) -> Seq<char> {
    "#[automatically_derived] impl"@ + impl_generics + " ::deepclone::DeepClone for "@ + name
        + ty_generics + " where "@ + listed(predicates_of(own, params, container, whole))
        + method_head() + body_of(body, whole) + " } }"@
}

proof fn listed_step(items: Seq<Seq<char>>, i: int)
    requires
        0 <= i < items.len(),
    ensures
        listed(items.take(i + 1)) == listed(items.take(i)) + items[i] + ", "@,
{
    assert(items.take(i + 1).drop_last() =~= items.take(i));
}

proof fn listed_all(items: Seq<Seq<char>>)
    ensures
        items.take(items.len() as int) == items,
{
    assert(items.take(items.len() as int) =~= items);
}

/// Append `item` and `, ` to `text`.
fn push_item(text: &mut String, item: &str)
    ensures
        final(text)@ == old(text)@ + item@ + ", "@,
{
    text.append(item);
    text.append(", ");
}

/// The copy of one field.
fn field_value_text(field: &FieldSpec, in_variant: bool) -> (value: String)
    ensures
        value@ == field_value(*field, in_variant),
{
    let access = if in_variant {
        binding_ident(field.member.as_str())
    } else {
        let mut access = String::from_str("&self.");
        access.append(field.member.as_str());
        access
    };
    field_expression(field.strategy, access.as_str(), field.with.as_str())
}

/// `ctor { a: .., }`, `ctor(..,)` or `ctor`: the copy of a struct or variant, with every
/// field cloned by its strategy through `cloner`. In a variant (`in_variant`) each field is
/// read through its binding, in a struct through `&self`.
pub fn clone_fields(ctor: &str, fields: &FieldsSpec, in_variant: bool) -> (text: String)
    ensures
        text@ == clone_fields_of(ctor@, *fields, in_variant),
{
    let mut text = String::from_str(ctor);
    let (fs, named) = match fields {
        FieldsSpec::Named(fs) => (fs, true),
        FieldsSpec::Unnamed(fs) => (fs, false),
        FieldsSpec::Unit => {
            return text;
        },
    };
    if named {
        text.append(" { ");
    } else {
        text.append("(");
    }
    let ghost head = text@;
    let ghost items = field_entries(*fields, in_variant);
    let mut i: usize = 0;
    while i < fs.len()
        invariant
            i <= fs@.len(),
            fs@ == field_list(*fields),
            named == is_named(*fields),
            items == field_entries(*fields, in_variant),
            text@ == head + listed(items.take(i as int)),
        decreases fs@.len() - i,
    {
        let value = field_value_text(&fs[i], in_variant);
        if named {
            let mut entry = String::from_str(fs[i].member.as_str());
            entry.append(": ");
            entry.append(value.as_str());
            push_item(&mut text, entry.as_str());
        } else {
            push_item(&mut text, value.as_str());
        }
        proof {
            listed_step(items, i as int);
        }
        i = i + 1;
    }
    proof {
        listed_all(items);
    }
    if named {
        text.append("}");
    } else {
        text.append(")");
    }
    text
}

/// `{ a: field_a, }`, `(field_0,)` or nothing: the pattern that binds a variant's fields,
/// each to its binding.
pub fn bind_fields(fields: &FieldsSpec) -> (text: String)
    ensures
        text@ == bind_fields_of(*fields),
{
    let (fs, named) = match fields {
        FieldsSpec::Named(fs) => (fs, true),
        FieldsSpec::Unnamed(fs) => (fs, false),
        FieldsSpec::Unit => {
            return String::new();
        },
    };
    let mut text = if named {
        String::from_str(" { ")
    } else {
        String::from_str("(")
    };
    let ghost head = text@;
    let ghost items = pattern_entries(*fields);
    let mut i: usize = 0;
    while i < fs.len()
        invariant
            i <= fs@.len(),
            fs@ == field_list(*fields),
            named == is_named(*fields),
            items == pattern_entries(*fields),
            text@ == head + listed(items.take(i as int)),
        decreases fs@.len() - i,
    {
        let binding = binding_ident(fs[i].member.as_str());
        if named {
            let mut entry = String::from_str(fs[i].member.as_str());
            entry.append(": ");
            entry.append(binding.as_str());
            push_item(&mut text, entry.as_str());
        } else {
            push_item(&mut text, binding.as_str());
        }
        proof {
            listed_step(items, i as int);
        }
        i = i + 1;
    }
    proof {
        listed_all(items);
    }
    if named {
        text.append("}");
    } else {
        text.append(")");
    }
    text
}

/// The arm of one variant.
fn arm(variant: &VariantSpec) -> (text: String)
    ensures
        text@ == arm_of(*variant),
{
    let mut ctor = String::from_str("Self::");
    ctor.append(variant.name.as_str());
    let mut text = String::from_str(ctor.as_str());
    let pattern = bind_fields(&variant.fields);
    text.append(pattern.as_str());
    text.append(" => ");
    let copy = clone_fields(ctor.as_str(), &variant.fields, true);
    text.append(copy.as_str());
    text
}

/// The body of `deep_clone_in`: a shallow clone of the whole value, the struct's constructor,
/// or a match with one arm per variant.
fn body_text(body: &BodySpec, whole: bool) -> (text: String)
    ensures
        text@ == body_of(*body, whole),
{
    if whole {
        return String::from_str(whole_clone_expression());
    }
    match body {
        BodySpec::Struct(fields) => clone_fields("Self", fields, false),
        BodySpec::Enum(variants) => {
            let mut text = String::from_str("match self { ");
            let ghost head = text@;
            let ghost items = arms_of(variants@);
            let mut i: usize = 0;
            while i < variants.len()
                invariant
                    i <= variants@.len(),
                    items == arms_of(variants@),
                    text@ == head + listed(items.take(i as int)),
                decreases variants@.len() - i,
            {
                let arm = arm(&variants[i]);
                push_item(&mut text, arm.as_str());
                proof {
                    listed_step(items, i as int);
                }
                i = i + 1;
            }
            proof {
                listed_all(items);
            }
            text.append("}");
            text
        },
    }
}

/// The impl `#[derive(DeepClone)]` generates, as source text: `impl_generics`,
/// `ty_generics`, and the predicates in `own` and `container` are the text of the type's own
/// generics; `params` are its type parameters' names; `whole` says whether the type is cloned
/// whole by `#[deepclone(clone)]`.
pub fn expand(
    name: &str,
    impl_generics: &str,
    ty_generics: &str,
    own: Vec<String>,
    params: Vec<String>,
    container: Option<Vec<String>>,
    whole: bool,
    body: &BodySpec,
) -> (text: String)
    ensures
        text@ == impl_text_of(name@, impl_generics@, ty_generics@, own@, params@, container, whole, *body),
{
    let ghost predicates = predicates_of(own@, params@, container, whole);
    let generated = generated_bounds(&params, whole);
    let preds = where_predicates(own, generated, container);
    assert(texts(preds@) =~= predicates);
    let mut text = String::from_str("#[automatically_derived] impl");
    text.append(impl_generics);
    text.append(" ::deepclone::DeepClone for ");
    text.append(name);
    text.append(ty_generics);
    text.append(" where ");
    let ghost head = text@;
    let mut i: usize = 0;
    while i < preds.len()
        invariant
            i <= preds@.len(),
            texts(preds@) == predicates,
            text@ == head + listed(predicates.take(i as int)),
        decreases preds@.len() - i,
    {
        push_item(&mut text, preds[i].as_str());
        proof {
            listed_step(predicates, i as int);
        }
        i = i + 1;
    }
    proof {
        listed_all(predicates);
    }
    text.append("{ fn deep_clone_in(&self, cloner: &mut ::deepclone::Cloner) -> Self { ");
    let body = body_text(body, whole);
    text.append(body.as_str());
    text.append(" } }");
    text
}

/// Where item `i`'s text starts in `listed(items)`.
pub open spec fn entry_start(items: Seq<Seq<char>>, i: int) -> int {
    listed(items.take(i)).len() as int
}

proof fn listed_prefix(items: Seq<Seq<char>>, k: int)
    requires
        0 <= k <= items.len(),
    ensures
        listed(items.take(k)).len() <= listed(items).len(),
        listed(items).subrange(0, listed(items.take(k)).len() as int) == listed(items.take(k)),
    decreases items.len(),
{
    if k == items.len() {
        listed_all(items);
        assert(listed(items).subrange(0, listed(items).len() as int) =~= listed(items));
    } else {
        let d = items.drop_last();
        assert(d.take(k) =~= items.take(k));
        listed_prefix(d, k);
        let n = listed(d.take(k)).len() as int;
        assert(listed(items).subrange(0, n) =~= listed(d).subrange(0, n));
    }
}

/// Each item has its own place in `listed(items)`, in order: item `i` starts where the items
/// before it end, is followed by `, `, and item `i + 1` starts right after that.
pub proof fn listed_holds_each_item_in_order(items: Seq<Seq<char>>, i: int)
    requires
        0 <= i < items.len(),
    ensures
        entry_start(items, i + 1) == entry_start(items, i) + items[i].len() + 2,
        entry_start(items, i + 1) <= listed(items).len(),
        listed(items).subrange(entry_start(items, i), entry_start(items, i) + items[i].len()) == items[i],
        listed(items).subrange(entry_start(items, i) + items[i].len(), entry_start(items, i + 1)) == ", "@,
{
    reveal_strlit(", ");
    listed_step(items, i);
    listed_prefix(items, i + 1);
    let s = entry_start(items, i);
    let e = entry_start(items, i + 1);
    let whole = listed(items);
    let part = listed(items.take(i + 1));
    assert(whole.subrange(s, s + items[i].len()) =~= part.subrange(s, s + items[i].len()));
    assert(part.subrange(s, s + items[i].len()) =~= items[i]);
    assert(whole.subrange(s + items[i].len(), e) =~= part.subrange(s + items[i].len(), e));
    assert(part.subrange(s + items[i].len(), e) =~= ", "@);
}

/// Every field appears in the copy's constructor at a place of its own, in declaration order:
/// field `i`'s entry (`member: value` for a named field, `value` otherwise) stands where the
/// entries of the fields before it end and is followed by `, `, and the entries of the later
/// fields start after it.
pub proof fn constructor_holds_each_field_in_order(ctor: Seq<char>, fields: FieldsSpec, in_variant: bool, i: int)
    requires
        0 <= i < field_list(fields).len(),
    ensures
        field_entries(fields, in_variant)[i] == field_entry(field_list(fields)[i], is_named(fields), in_variant),
        clone_fields_of(ctor, fields, in_variant).subrange(
            ctor.len() + opening(fields).len() + entry_start(field_entries(fields, in_variant), i),
            ctor.len() + opening(fields).len() + entry_start(field_entries(fields, in_variant), i)
                + field_entries(fields, in_variant)[i].len(),
        ) == field_entries(fields, in_variant)[i],
        entry_start(field_entries(fields, in_variant), i + 1)
            == entry_start(field_entries(fields, in_variant), i) + field_entries(fields, in_variant)[i].len() + 2,
{
    let items = field_entries(fields, in_variant);
    listed_holds_each_item_in_order(items, i);
    let off = ctor.len() + opening(fields).len();
    let s = entry_start(items, i);
    let text = clone_fields_of(ctor, fields, in_variant);
    assert(text == ctor + opening(fields) + listed(items) + closing(fields));
    assert(text.subrange(off + s, off + s + items[i].len()) =~= listed(items).subrange(s, s + items[i].len()));
}

/// Each arm reads the bindings its pattern introduces: field `i` of a variant is bound at its
/// own place in the pattern, as `binding_of(member)`, and the arm's copy of field `i` reads
/// that same binding.
pub proof fn arm_reads_its_bindings(fields: FieldsSpec, i: int)
    requires
        0 <= i < field_list(fields).len(),
    ensures
        pattern_entries(fields)[i] == pattern_entry(field_list(fields)[i], is_named(fields)),
        bind_fields_of(fields).subrange(
            opening(fields).len() + entry_start(pattern_entries(fields), i),
            opening(fields).len() + entry_start(pattern_entries(fields), i) + pattern_entries(fields)[i].len(),
        ) == pattern_entries(fields)[i],
        field_value(field_list(fields)[i], true) == field_expression_of(
            field_list(fields)[i].strategy,
            binding_of(field_list(fields)[i].member@),
            field_list(fields)[i].with@,
        ),
{
    let items = pattern_entries(fields);
    listed_holds_each_item_in_order(items, i);
    let off = opening(fields).len() as int;
    let s = entry_start(items, i);
    let text = bind_fields_of(fields);
    assert(text == opening(fields) + listed(items) + closing(fields));
    assert(text.subrange(off + s, off + s + items[i].len()) =~= listed(items).subrange(s, s + items[i].len()));
}

/// Every field cloned deeply or by a `with` function is cloned through the one `cloner` that
/// the impl's method takes: its expression ends by passing `cloner`, the name the method
/// header binds. `clone` and `default` fields do not read it.
pub proof fn fields_share_the_cloner(field: FieldSpec, in_variant: bool)
    ensures
        (field.strategy is Deep || field.strategy is With) ==> {
            let v = field_value(field, in_variant);
            v.len() >= 9 && v.subrange(v.len() - 9, v.len() as int) == ", cloner)"@
        },
        method_head().subrange(26, 58) == "cloner: &mut ::deepclone::Cloner"@,
{
    reveal_strlit(", cloner)");
    reveal_strlit("{ fn deep_clone_in(&self, cloner: &mut ::deepclone::Cloner) -> Self { ");
    reveal_strlit("cloner: &mut ::deepclone::Cloner");
    reveal_strlit("::deepclone::DeepClone::deep_clone_in(");
    reveal_strlit("(");
    let v = field_value(field, in_variant);
    if field.strategy is Deep || field.strategy is With {
        assert(v.subrange(v.len() - 9, v.len() as int) =~= ", cloner)"@);
    }
    assert(method_head().subrange(26, 58) =~= "cloner: &mut ::deepclone::Cloner"@);
}

/// The impl's header puts each part of the generics where Rust expects it: the text is
/// `#[automatically_derived] impl`, the impl generics, ` ::deepclone::DeepClone for `, the
/// type's name, the type generics, and ` where `, in that order, for every input.
pub proof fn impl_header_places_the_generics(
    name: Seq<char>,
    impl_generics: Seq<char>,
    ty_generics: Seq<char>,
    own: Seq<String>,
    params: Seq<String>,
    container: Option<Vec<String>>,
    whole: bool,
    body: BodySpec,
)
    ensures
        ({
            let text = impl_text_of(name, impl_generics, ty_generics, own, params, container, whole, body);
            let a = "#[automatically_derived] impl"@;
            let b = " ::deepclone::DeepClone for "@;
            let header = a + impl_generics + b + name + ty_generics + " where "@;
            &&& header.len() <= text.len()
            &&& text.subrange(0, a.len() as int) == a
            &&& text.subrange(a.len() as int, (a.len() + impl_generics.len()) as int) == impl_generics
            &&& text.subrange((a.len() + impl_generics.len() + b.len() + name.len()) as int,
                    (a.len() + impl_generics.len() + b.len() + name.len() + ty_generics.len()) as int) == ty_generics
            &&& text.subrange(0, header.len() as int) == header
        }),
{
    let text = impl_text_of(name, impl_generics, ty_generics, own, params, container, whole, body);
    let a = "#[automatically_derived] impl"@;
    let b = " ::deepclone::DeepClone for "@;
    let header = a + impl_generics + b + name + ty_generics + " where "@;
    let rest = listed(predicates_of(own, params, container, whole)) + method_head() + body_of(body, whole) + " } }"@;
    assert(text =~= header + rest);
    assert(text.subrange(0, header.len() as int) =~= header);
    assert(text.subrange(0, a.len() as int) =~= a);
    assert(text.subrange(a.len() as int, (a.len() + impl_generics.len()) as int) =~= impl_generics);
    assert(text.subrange((a.len() + impl_generics.len() + b.len() + name.len()) as int,
        (a.len() + impl_generics.len() + b.len() + name.len() + ty_generics.len()) as int) =~= ty_generics);
}

/// The where-clause: right after ` where ` stand the type's own predicates, each followed by
/// `, `, then, when the type gives `bound = ".."`, exactly the container's predicates, however
/// many (none included), and otherwise `P: <trait>` for every type parameter `P`; the
/// method follows directly.
pub proof fn where_clause_holds_own_then_container_or_generated(
    name: Seq<char>,
    impl_generics: Seq<char>,
    ty_generics: Seq<char>,
    own: Seq<String>,
    params: Seq<String>,
    container: Option<Vec<String>>,
    whole: bool,
    body: BodySpec,
)
    ensures
        ({
            let text = impl_text_of(name, impl_generics, ty_generics, own, params, container, whole, body);
            let start = ("#[automatically_derived] impl"@ + impl_generics + " ::deepclone::DeepClone for "@
                + name + ty_generics + " where "@).len();
            let own_texts = Seq::new(own.len(), |i: int| own[i]@);
            let added = match container {
                Some(c) => Seq::new(c@.len(), |i: int| c@[i]@),
                None => Seq::new(params.len(), |i: int| params[i]@ + parameter_trait(whole)),
            };
            let clause = listed(own_texts + added);
            &&& start + clause.len() + method_head().len() <= text.len()
            &&& text.subrange(start as int, (start + clause.len()) as int) == clause
            &&& text.subrange((start + clause.len()) as int, (start + clause.len() + method_head().len()) as int) == method_head()
        }),
{
    let text = impl_text_of(name, impl_generics, ty_generics, own, params, container, whole, body);
    let header = "#[automatically_derived] impl"@ + impl_generics + " ::deepclone::DeepClone for "@
        + name + ty_generics + " where "@;
    let own_texts = Seq::new(own.len(), |i: int| own[i]@);
    let added = match container {
        Some(c) => Seq::new(c@.len(), |i: int| c@[i]@),
        None => Seq::new(params.len(), |i: int| params[i]@ + parameter_trait(whole)),
    };
    assert(predicates_of(own, params, container, whole) =~= own_texts + added);
    let clause = listed(own_texts + added);
    assert(text =~= header + clause + method_head() + (body_of(body, whole) + " } }"@));
    let st = header.len() as int;
    assert(text.subrange(st, st + clause.len()) =~= clause);
    assert(text.subrange(st + clause.len(), st + clause.len() + method_head().len()) =~= method_head());
}

/// Given a container bound, the where-clause does not depend on the type parameters: two
/// calls that differ only in `params` give the same impl.
pub proof fn container_bound_ignores_the_parameters(
    name: Seq<char>,
    impl_generics: Seq<char>,
    ty_generics: Seq<char>,
    own: Seq<String>,
    params1: Seq<String>,
    params2: Seq<String>,
    bound: Vec<String>,
    whole: bool,
    body: BodySpec,
)
    ensures
        impl_text_of(name, impl_generics, ty_generics, own, params1, Some(bound), whole, body)
            == impl_text_of(name, impl_generics, ty_generics, own, params2, Some(bound), whole, body),
{
    where_clause_holds_own_then_container_or_generated(name, impl_generics, ty_generics, own, params1, Some(bound), whole, body);
    where_clause_holds_own_then_container_or_generated(name, impl_generics, ty_generics, own, params2, Some(bound), whole, body);
    impl_header_places_the_generics(name, impl_generics, ty_generics, own, params1, Some(bound), whole, body);
    impl_header_places_the_generics(name, impl_generics, ty_generics, own, params2, Some(bound), whole, body);
    assert(predicates_of(own, params1, Some(bound), whole) =~= predicates_of(own, params2, Some(bound), whole));
}

/// Every field of a variant is bound by its pattern: at field `i`'s place in the pattern
/// stands `binding_of(member)`, after `member: ` for a named field, and then `, `.
pub proof fn pattern_binds_every_field(fields: FieldsSpec, i: int)
    requires
        0 <= i < field_list(fields).len(),
    ensures
        ({
            let m = field_list(fields)[i].member@;
            let name_part = if is_named(fields) { m + ": "@ } else { Seq::<char>::empty() };
            let at = opening(fields).len() + entry_start(pattern_entries(fields), i);
            let text = bind_fields_of(fields);
            &&& at + name_part.len() + binding_of(m).len() + 2 <= text.len()
            &&& text.subrange(at, at + name_part.len()) == name_part
            &&& text.subrange(at + name_part.len(), at + name_part.len() + binding_of(m).len()) == binding_of(m)
            &&& text.subrange(at + name_part.len() + binding_of(m).len(), at + name_part.len() + binding_of(m).len() + 2) == ", "@
        }),
{
    reveal_strlit(", ");
    let items = pattern_entries(fields);
    listed_holds_each_item_in_order(items, i);
    let m = field_list(fields)[i].member@;
    let name_part = if is_named(fields) { m + ": "@ } else { Seq::<char>::empty() };
    let entry = items[i];
    assert(entry =~= name_part + binding_of(m));
    let off = opening(fields).len() as int;
    let s = entry_start(items, i);
    let text = bind_fields_of(fields);
    assert(text == opening(fields) + listed(items) + closing(fields));
    let l = listed(items);
    assert(text.subrange(off + s, off + s + entry.len() + 2) =~= l.subrange(s, s + entry.len() + 2));
    assert(l.subrange(s, s + entry.len() + 2) =~= entry + ", "@);
    let at = off + s;
    let seg = text.subrange(at, at + entry.len() + 2);
    let np = name_part.len() as int;
    let bl = binding_of(m).len() as int;
    assert(seg =~= name_part + binding_of(m) + ", "@);
    assert(seg.subrange(np, np + bl) =~= binding_of(m));
    assert(text.subrange(at + np, at + np + bl) =~= seg.subrange(np, np + bl));
    assert(text.subrange(at, at + name_part.len()) =~= name_part);
    assert(text.subrange(at + name_part.len(), at + name_part.len() + binding_of(m).len()) =~= binding_of(m));
    assert(text.subrange(at + name_part.len() + binding_of(m).len(), at + name_part.len() + binding_of(m).len() + 2) =~= ", "@);
}

proof fn entry_value_at(ctor: Seq<char>, fields: FieldsSpec, in_variant: bool, i: int)
    requires
        0 <= i < field_list(fields).len(),
    ensures
        ({
            let f = field_list(fields)[i];
            let name_part = if is_named(fields) { f.member@ + ": "@ } else { Seq::<char>::empty() };
            let at = ctor.len() + opening(fields).len() + entry_start(field_entries(fields, in_variant), i) + name_part.len();
            let value = field_value(f, in_variant);
            let text = clone_fields_of(ctor, fields, in_variant);
            &&& at + value.len() <= text.len()
            &&& text.subrange(at, at + value.len()) == value
        }),
{
    let items = field_entries(fields, in_variant);
    listed_holds_each_item_in_order(items, i);
    constructor_holds_each_field_in_order(ctor, fields, in_variant, i);
    let f = field_list(fields)[i];
    let name_part = if is_named(fields) { f.member@ + ": "@ } else { Seq::<char>::empty() };
    let value = field_value(f, in_variant);
    let entry = items[i];
    assert(entry =~= name_part + value);
    let text = clone_fields_of(ctor, fields, in_variant);
    let b = ctor.len() + opening(fields).len() + entry_start(items, i);
    assert(text == ctor + opening(fields) + listed(items) + closing(fields));
    assert(text.subrange(b, b + entry.len()) == entry);
    assert(text.subrange(b + name_part.len(), b + name_part.len() + value.len())
        =~= entry.subrange(name_part.len() as int, entry.len() as int));
    assert(entry.subrange(name_part.len() as int, entry.len() as int) =~= value);
}

/// A struct's copy reads every field through `self`, named and tuple structs alike: in the
/// body of `deep_clone_in`, at field `i`'s place in the `Self` constructor (after
/// `member: ` for a named field), stands `field_expression_of(strategy, &self.member, with)`.
pub proof fn struct_copies_each_field_through_self(fields: FieldsSpec, i: int)
    requires
        0 <= i < field_list(fields).len(),
    ensures
        ({
            let f = field_list(fields)[i];
            let name_part = if is_named(fields) { f.member@ + ": "@ } else { Seq::<char>::empty() };
            let at = "Self"@.len() + opening(fields).len() + entry_start(field_entries(fields, false), i) + name_part.len();
            let value = field_expression_of(f.strategy, "&self."@ + f.member@, f.with@);
            let text = body_of(BodySpec::Struct(fields), false);
            &&& at + value.len() <= text.len()
            &&& text.subrange(at, at + value.len()) == value
        }),
{
    entry_value_at("Self"@, fields, false, i);
}

/// Each arm rebuilds its variant from the bindings its pattern introduces: the arm is
/// `Self::Name`, the pattern, and ` => `, and then, at field `i`'s place in the `Self::Name`
/// constructor (after `member: ` for a named field), stands
/// `field_expression_of(strategy, binding_of(member), with)`, for every shape of fields.
pub proof fn arm_copies_each_field_from_its_binding(variant: VariantSpec, i: int)
    requires
        0 <= i < field_list(variant.fields).len(),
    ensures
        ({
            let fields = variant.fields;
            let f = field_list(fields)[i];
            let ctor = "Self::"@ + variant.name@;
            let head = ctor + bind_fields_of(fields) + " => "@;
            let name_part = if is_named(fields) { f.member@ + ": "@ } else { Seq::<char>::empty() };
            let at = head.len() + ctor.len() + opening(fields).len() + entry_start(field_entries(fields, true), i)
                + name_part.len();
            let value = field_expression_of(f.strategy, binding_of(f.member@), f.with@);
            let text = arm_of(variant);
            &&& at + value.len() <= text.len()
            &&& text.subrange(0, head.len() as int) == head
            &&& text.subrange(at, at + value.len()) == value
        }),
{
    let fields = variant.fields;
    let ctor = "Self::"@ + variant.name@;
    let head = ctor + bind_fields_of(fields) + " => "@;
    let copy = clone_fields_of(ctor, fields, true);
    entry_value_at(ctor, fields, true, i);
    let text = arm_of(variant);
    assert(text =~= head + copy);
    assert(text.subrange(0, head.len() as int) =~= head);
    let f = field_list(fields)[i];
    let name_part = if is_named(fields) { f.member@ + ": "@ } else { Seq::<char>::empty() };
    let at = ctor.len() + opening(fields).len() + entry_start(field_entries(fields, true), i) + name_part.len();
    let value = field_value(f, true);
    assert(text.subrange(head.len() + at, head.len() + at + value.len()) =~= copy.subrange(at, at + value.len()));
}

/// An enum's copy is one match over `self` whose arms follow the variants in declaration
/// order: arm `i` stands at its own place, after `match self { ` and the earlier arms.
pub proof fn enum_matches_every_variant_in_order(variants: Vec<VariantSpec>, i: int)
    requires
        0 <= i < variants@.len(),
    ensures
        ({
            let text = body_of(BodySpec::Enum(variants), false);
            let at = "match self { "@.len() + entry_start(arms_of(variants@), i);
            let arm = arm_of(variants@[i]);
            &&& at + arm.len() <= text.len()
            &&& text.subrange(0, "match self { "@.len() as int) == "match self { "@
            &&& text.subrange(at, at + arm.len()) == arm
        }),
{
    let items = arms_of(variants@);
    listed_holds_each_item_in_order(items, i);
    let text = body_of(BodySpec::Enum(variants), false);
    let m = "match self { "@;
    assert(text == m + listed(items) + "}"@);
    assert(text.subrange(0, m.len() as int) =~= m);
    let s = entry_start(items, i);
    assert(text.subrange(m.len() + s, m.len() + s + items[i].len()) =~= listed(items).subrange(s, s + items[i].len()));
}

/// A type cloned whole has the same body whatever its fields: a shallow clone of `self`.
pub proof fn whole_clone_ignores_the_fields(body1: BodySpec, body2: BodySpec)
    ensures
        body_of(body1, true) == body_of(body2, true),
        body_of(body1, true) == "::core::clone::Clone::clone(self)"@,
{
}

/// The copy's constructor has the shape of the fields: `ctor` alone for none, `ctor { .. }`
/// for named fields and `ctor(..)` for unnamed ones.
pub proof fn constructor_has_the_fields_shape(ctor: Seq<char>, fields: FieldsSpec, in_variant: bool)
    ensures
        ({
            let text = clone_fields_of(ctor, fields, in_variant);
            &&& fields is Unit ==> text == ctor
            &&& fields is Named ==> text.len() >= ctor.len() + 4
                && text.subrange(0, (ctor.len() + 3) as int) == ctor + " { "@ && text.last() == '}'
            &&& fields is Unnamed ==> text.len() >= ctor.len() + 2
                && text.subrange(0, (ctor.len() + 1) as int) == ctor + "("@ && text.last() == ')'
        }),
{
    reveal_strlit(" { ");
    reveal_strlit("(");
    reveal_strlit("}");
    reveal_strlit(")");
    let text = clone_fields_of(ctor, fields, in_variant);
    let l = listed(field_entries(fields, in_variant));
    if fields is Named {
        assert(text =~= ctor + " { "@ + l + "}"@);
        assert(text.subrange(0, (ctor.len() + 3) as int) =~= ctor + " { "@);
    } else if fields is Unnamed {
        assert(text =~= ctor + "("@ + l + ")"@);
        assert(text.subrange(0, (ctor.len() + 1) as int) =~= ctor + "("@);
    }
}

/// The pattern has the shape of the fields: nothing for none, `{ .. }` for named fields and
/// `(..)` for unnamed ones.
pub proof fn pattern_has_the_fields_shape(fields: FieldsSpec)
    ensures
        ({
            let text = bind_fields_of(fields);
            &&& fields is Unit ==> text.len() == 0
            &&& fields is Named ==> text.len() >= 4 && text.subrange(0, 3) == " { "@ && text.last() == '}'
            &&& fields is Unnamed ==> text.len() >= 2 && text[0] == '(' && text.last() == ')'
        }),
{
    reveal_strlit(" { ");
    reveal_strlit("(");
    reveal_strlit("}");
    reveal_strlit(")");
    let text = bind_fields_of(fields);
    let l = listed(pattern_entries(fields));
    if fields is Named {
        assert(text =~= " { "@ + l + "}"@);
        assert(text.subrange(0, 3) =~= " { "@);
    } else if fields is Unnamed {
        assert(text =~= "("@ + l + ")"@);
    }
}

} // verus!
