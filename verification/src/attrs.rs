//! The rules of `#[derive(DeepClone)]`: what each `#[deepclone(..)]` word means on a field
//! and on the type, when a set of them is refused, which types the derive accepts, which
//! where-predicates the impl carries, what expression clones each field, and what the bindings
//! of an enum variant's fields are called.
//!
//! The macro reads words, names, and paths out of the syntax tree and turns the texts decided
//! here back into tokens; syntax-tree walking and token assembly are all it does itself.

use vstd::prelude::*;
use vstd::string::*;

verus! {

/// The name of the attribute the derive reads, on fields and on the container.
pub const ATTRIBUTE: &'static str = "deepclone";

/// How one field is cloned, after its `#[deepclone(..)]` attribute is applied.
#[derive(PartialEq, Eq, Structural, Clone, Copy, Debug)]
pub enum Strategy {
    /// Recurse, threading the cloner. Anything reached through here keeps its sharing.
    Deep,
    /// Shallow `Clone::clone`, opted into explicitly at the field (`clone`).
    Clone,
    /// A user-supplied `fn(&Field, &mut Cloner) -> Field` (`with = path`).
    With,
    /// Ignore the source value entirely (`default`).
    Default,
}

/// A word of the type's own `#[deepclone(..)]` attribute.
#[derive(PartialEq, Eq, Structural, Clone, Copy, Debug)]
pub enum ContainerWord {
    /// `bound = ".."`: replace the generated bounds.
    Bound,
    /// `clone`: the whole value is cloned by `Clone::clone`, ignoring the cloner.
    Clone,
}

/// A refused field attribute.
#[derive(PartialEq, Eq, Structural, Clone, Copy, Debug)]
pub enum FieldAttrError {
    /// A word other than `clone`, `default`, or `with`.
    Unknown,
    /// A second strategy for a field that already has one.
    Conflicting,
    /// Any field attribute on a type that is cloned whole.
    UnderWholeClone,
}

/// A refused container attribute.
#[derive(PartialEq, Eq, Structural, Clone, Copy, Debug)]
pub enum ContainerAttrError {
    /// A word other than `bound` or `clone`.
    Unknown,
    /// A `bound` whose value is not a string literal.
    NotAString,
}

/// The shape of the type the derive is applied to.
#[derive(PartialEq, Eq, Structural, Clone, Copy, Debug)]
pub enum DataKind {
    Struct,
    Enum,
    Union,
}

/// `str == str` from std, through two owned copies: true exactly when the two strings hold
/// the same characters.
fn same_text(a: &str, b: &str) -> (same: bool)
    ensures
        same == (a@ == b@),
{
    a.to_owned() == b.to_owned()
}

/// `String::push` from std: appends one character.
#[verifier::external_body]
fn push_char(text: &mut String, c: char)
    ensures
        final(text)@ == old(text)@.push(c),
{
    text.push(c)
}

/// The strategy a field attribute word names, if it names one.
pub open spec fn field_word_of(word: Seq<char>) -> Result<Strategy, FieldAttrError> {
    if word == "clone"@ {
        Ok(Strategy::Clone)
    } else if word == "default"@ {
        Ok(Strategy::Default)
    } else if word == "with"@ {
        Ok(Strategy::With)
    } else {
        Err(FieldAttrError::Unknown)
    }
}

/// Classify one word of a field's `#[deepclone(..)]` attribute. `word` is the word's text,
/// or `None` when the item is not a single identifier.
pub fn field_word(word: Option<&str>) -> (found: Result<Strategy, FieldAttrError>)
    ensures
        found == (match word {
            Some(w) => field_word_of(w@),
            None => Err(FieldAttrError::Unknown),
        }),
{
    proof {
        reveal_strlit("clone");
        reveal_strlit("default");
        reveal_strlit("with");
        assert("clone"@.len() == 5 && "default"@.len() == 7 && "with"@.len() == 4);
    }
    match word {
        Some(w) => {
            if same_text(w, "clone") {
                Ok(Strategy::Clone)
            } else if same_text(w, "default") {
                Ok(Strategy::Default)
            } else if same_text(w, "with") {
                Ok(Strategy::With)
            } else {
                Err(FieldAttrError::Unknown)
            }
        },
        None => Err(FieldAttrError::Unknown),
    }
}

/// The strategies chosen so far for one field, across all its `#[deepclone(..)]` attributes.
pub struct FieldChoice {
    chosen: Option<Strategy>,
}

impl FieldChoice {
    /// The strategy chosen so far, if any.
    pub closed spec fn chosen(&self) -> Option<Strategy> {
        self.chosen
    }

    /// Nothing chosen yet.
    pub fn new() -> (choice: Self)
        ensures
            choice.chosen() == None::<Strategy>,
    {
        FieldChoice { chosen: None }
    }

    /// Choose `found` for the field. A field takes at most one strategy: a second one is
    /// refused and leaves the first in place.
    pub fn pick(&mut self, found: Strategy) -> (r: Result<(), FieldAttrError>)
        ensures
            old(self).chosen() is None ==> r is Ok && final(self).chosen() == Some(found),
            old(self).chosen() is Some ==> r == Err::<(), FieldAttrError>(FieldAttrError::Conflicting)
                && final(self).chosen() == old(self).chosen(),
    {
        if self.chosen.is_some() {
            Err(FieldAttrError::Conflicting)
        } else {
            self.chosen = Some(found);
            Ok(())
        }
    }

    /// The field's strategy: the one chosen, or `Deep` when none was.
    pub fn strategy(&self) -> (strategy: Strategy)
        ensures
            strategy == (match self.chosen() {
                Some(s) => s,
                None => Strategy::Deep,
            }),
    {
        match self.chosen {
            Some(s) => s,
            None => Strategy::Deep,
        }
    }
}

/// The container word a word names, if it names one.
pub open spec fn container_word_of(word: Seq<char>) -> Result<ContainerWord, ContainerAttrError> {
    if word == "bound"@ {
        Ok(ContainerWord::Bound)
    } else if word == "clone"@ {
        Ok(ContainerWord::Clone)
    } else {
        Err(ContainerAttrError::Unknown)
    }
}

/// Classify one word of the type's own `#[deepclone(..)]` attribute: `bound` and `clone` are
/// known.
pub fn container_word(word: Option<&str>) -> (found: Result<ContainerWord, ContainerAttrError>)
    ensures
        found == (match word {
            Some(w) => container_word_of(w@),
            None => Err(ContainerAttrError::Unknown),
        }),
{
    proof {
        reveal_strlit("bound");
        reveal_strlit("clone");
        assert("bound"@.len() == 5 && "clone"@.len() == 5);
        assert("bound"@[0] == 'b' && "clone"@[0] == 'c');
    }
    match word {
        Some(w) => if same_text(w, "bound") {
            Ok(ContainerWord::Bound)
        } else if same_text(w, "clone") {
            Ok(ContainerWord::Clone)
        } else {
            Err(ContainerAttrError::Unknown)
        },
        None => Err(ContainerAttrError::Unknown),
    }
}

/// The text of a `bound = ..` value, which must be a string literal: `literal` is the
/// literal's value when it is one.
pub fn bound_text<T>(literal: Option<T>) -> (text: Result<T, ContainerAttrError>)
    ensures
        match literal {
            Some(t) => text == Ok::<T, ContainerAttrError>(t),
            None => text == Err::<T, ContainerAttrError>(ContainerAttrError::NotAString),
        },
{
    match literal {
        Some(t) => Ok(t),
        None => Err(ContainerAttrError::NotAString),
    }
}

/// What the type's own `#[deepclone(..)]` attributes have said so far: whether the value is
/// cloned whole, and the predicates of the last `bound`.
pub struct ContainerChoice<P> {
    whole: bool,
    bound: Option<P>,
}

impl<P> ContainerChoice<P> {
    /// Whether a `clone` word was met.
    pub closed spec fn whole(&self) -> bool {
        self.whole
    }

    /// The predicates of the last `bound` met, if any.
    pub closed spec fn bound(&self) -> Option<P> {
        self.bound
    }

    /// Nothing said yet: the value is cloned field by field, with the generated bounds.
    pub fn new() -> (choice: Self)
        ensures
            !choice.whole(),
            choice.bound() is None,
    {
        ContainerChoice { whole: false, bound: None }
    }

    /// A `clone` word: the value is cloned whole.
    pub fn clone_whole(&mut self)
        ensures
            final(self).whole(),
            final(self).bound() == old(self).bound(),
    {
        self.whole = true;
    }

    /// A `bound` word with its predicates; a later `bound` replaces an earlier one.
    pub fn replace_bound(&mut self, predicates: P)
        ensures
            final(self).whole() == old(self).whole(),
            final(self).bound() == Some(predicates),
    {
        self.bound = Some(predicates);
    }

    /// What was said: whether the value is cloned whole, and the replacing bound.
    pub fn into_parts(self) -> (parts: (bool, Option<P>))
        ensures
            parts.0 == self.whole(),
            parts.1 == self.bound(),
    {
        (self.whole, self.bound)
    }
}

/// A field attribute is refused on a type that is cloned whole, since no field is cloned on
/// its own.
pub fn field_attribute_allowed(whole: bool) -> (allowed: Result<(), FieldAttrError>)
    ensures
        whole ==> allowed == Err::<(), FieldAttrError>(FieldAttrError::UnderWholeClone),
        !whole ==> allowed is Ok,
{
    if whole {
        Err(FieldAttrError::UnderWholeClone)
    } else {
        Ok(())
    }
}

/// Whether the derive accepts a type of this shape: structs and enums, not unions, since
/// which field of a union is live is not known statically.
pub fn derivable(kind: DataKind) -> (accepted: bool)
    ensures
        accepted == (kind != DataKind::Union),
{
    match kind {
        DataKind::Union => false,
        _ => true,
    }
}

/// The trait every type parameter is bounded by: `DeepClone`, or `Clone` for a type cloned
/// whole.
pub open spec fn parameter_trait(whole: bool) -> Seq<char> {
    if whole {
        ": ::core::clone::Clone"@
    } else {
        ": ::deepclone::DeepClone"@
    }
}

/// The bound the derive adds for each type parameter, in order: every type parameter gains
/// the trait, as `derive(Clone)` adds a `Clone` bound.
pub fn generated_bounds(params: &Vec<String>, whole: bool) -> (bounds: Vec<String>)
    ensures
        bounds@.len() == params@.len(),
        forall|i: int| 0 <= i < params@.len() ==> #[trigger] bounds@[i]@ == params@[i]@ + parameter_trait(whole),
{
    let mut bounds: Vec<String> = Vec::new();
    let mut i: usize = 0;
    while i < params.len()
        invariant
            i <= params@.len(),
            bounds@.len() == i,
            forall|j: int| 0 <= j < i ==> #[trigger] bounds@[j]@ == params@[j]@ + parameter_trait(whole),
        decreases params@.len() - i,
    {
        let mut bound = String::from_str(params[i].as_str());
        if whole {
            bound.append(": ::core::clone::Clone");
        } else {
            bound.append(": ::deepclone::DeepClone");
        }
        bounds.push(bound);
        i = i + 1;
    }
    bounds
}

/// The where-predicates of the impl: the type's own, then either the generated bounds or,
/// when the type names its own with `bound = ".."`, those in their place.
pub fn where_predicates<P>(own: Vec<P>, generated: Vec<P>, container: Option<Vec<P>>) -> (preds: Vec<P>)
    ensures
        preds@ == own@ + match container {
            Some(c) => c@,
            None => generated@,
        },
{
    let mut preds = own;
    let mut added = match container {
        Some(c) => c,
        None => generated,
    };
    preds.append(&mut added);
    preds
}

/// The expression that clones one field reached as `access`, under `strategy`; `with` is
/// the path of a `with` strategy's function and is not read otherwise.
pub open spec fn field_expression_of(strategy: Strategy, access: Seq<char>, with: Seq<char>) -> Seq<char> {
    match strategy {
        Strategy::Deep => "::deepclone::DeepClone::deep_clone_in("@ + access + ", cloner)"@,
        Strategy::Clone => "::core::clone::Clone::clone("@ + access + ")"@,
        Strategy::With => with + "("@ + access + ", cloner)"@,
        Strategy::Default => "::core::default::Default::default()"@,
    }
}

/// The expression that clones one field reached as `access`, under `strategy`.
pub fn field_expression(strategy: Strategy, access: &str, with: &str) -> (e: String)
    ensures
        e@ == field_expression_of(strategy, access@, with@),
{
    match strategy {
        Strategy::Deep => {
            let mut e = String::from_str("::deepclone::DeepClone::deep_clone_in(");
            e.append(access);
            e.append(", cloner)");
            e
        },
        Strategy::Clone => {
            let mut e = String::from_str("::core::clone::Clone::clone(");
            e.append(access);
            e.append(")");
            e
        },
        Strategy::With => {
            let mut e = String::from_str(with);
            e.append("(");
            e.append(access);
            e.append(", cloner)");
            e
        },
        Strategy::Default => String::from_str("::core::default::Default::default()"),
    }
}

/// The body of `deep_clone_in` for a type cloned whole: a shallow clone of the whole value,
/// which ignores the cloner.
pub fn whole_clone_expression() -> (e: &'static str)
    ensures
        e@ == "::core::clone::Clone::clone(self)"@,
{
    "::core::clone::Clone::clone(self)"
}

/// The name of a field's member with any raw-identifier prefix `r#` taken off.
pub open spec fn member_name(member: Seq<char>) -> Seq<char> {
    if member.len() >= 2 && member[0] == 'r' && member[1] == '#' {
        member.skip(2)
    } else {
        member
    }
}

/// Bindings keep the characters of an identifier and make `.` and space `_`.
pub open spec fn binding_char(c: char) -> char {
    if c == '.' || c == ' ' {
        '_'
    } else {
        c
    }
}

/// The binding for a field whose member (name or index) prints as `member`: `field_` and the
/// member's name.
pub open spec fn binding_of(member: Seq<char>) -> Seq<char> {
    "field_"@ + member_name(member).map_values(|c: char| binding_char(c))
}

/// The name a variant's field is bound to, so named and tuple variants share one builder.
pub fn binding_ident(member: &str) -> (name: String)
    ensures
        name@ == binding_of(member@),
{
    let mut name = String::from_str("field_");
    let n = member.unicode_len();
    let start: usize = if n >= 2 && member.get_char(0) == 'r' && member.get_char(1) == '#' {
        2
    } else {
        0
    };
    let ghost text = member_name(member@);
    assert(text =~= member@.skip(start as int));
    let mut i: usize = start;
    while i < n
        invariant
            start <= i <= n,
            n == member@.len(),
            text =~= member@.skip(start as int),
            name@ == "field_"@ + text.take(i - start).map_values(|c: char| binding_char(c)),
        decreases n - i,
    {
        let c = member.get_char(i);
        let b = if c == '.' || c == ' ' { '_' } else { c };
        push_char(&mut name, b);
        proof {
            assert(text[i - start] == c);
            assert(text.take(i + 1 - start) =~= text.take(i - start).push(c));
            assert(text.take(i + 1 - start).map_values(|c: char| binding_char(c))
                =~= text.take(i - start).map_values(|c: char| binding_char(c)).push(b));
        }
        i = i + 1;
    }
    assert(text.take(n - start) =~= text);
    name
}

/// The characters of an ASCII identifier: letters, digits, and `_`.
pub open spec fn identifier_char(c: char) -> bool {
    ('a' <= c <= 'z') || ('A' <= c <= 'Z') || ('0' <= c <= '9') || c == '_'
}

/// A binding is an ASCII identifier when its member's name is one or is a tuple index: it
/// starts with the letter `f` and holds letters, digits, and `_` only, so no `#` survives
/// from a raw name. (Members with non-ASCII characters are not covered here; their binding
/// keeps those characters unchanged.)
pub proof fn binding_is_an_identifier(member: Seq<char>)
    requires
        forall|i: int| 0 <= i < member_name(member).len() ==> identifier_char(#[trigger] member_name(member)[i]),
    ensures
        binding_of(member)[0] == 'f',
        forall|i: int| 0 <= i < binding_of(member).len() ==> identifier_char(#[trigger] binding_of(member)[i]),
{
    reveal_strlit("field_");
    let b = binding_of(member);
    let name = member_name(member);
    assert forall|i: int| 0 <= i < b.len() implies identifier_char(#[trigger] b[i]) by {
        if i >= 6 {
            assert(b[i] == binding_char(name[i - 6]));
        }
    }
}

/// Distinct fields get distinct bindings: two members whose names hold no `.` or space (as
/// identifiers and indices do) bind to the same name only when they name the same field.
pub proof fn bindings_are_distinct(m1: Seq<char>, m2: Seq<char>)
    requires
        forall|i: int| 0 <= i < member_name(m1).len() ==> #[trigger] member_name(m1)[i] != '.' && member_name(m1)[i] != ' ',
        forall|i: int| 0 <= i < member_name(m2).len() ==> #[trigger] member_name(m2)[i] != '.' && member_name(m2)[i] != ' ',
        binding_of(m1) == binding_of(m2),
    ensures
        member_name(m1) == member_name(m2),
{
    reveal_strlit("field_");
    let n1 = member_name(m1);
    let n2 = member_name(m2);
    let t1 = n1.map_values(|c: char| binding_char(c));
    let t2 = n2.map_values(|c: char| binding_char(c));
    assert(t1 =~= binding_of(m1).skip(6));
    assert(t2 =~= binding_of(m2).skip(6));
    assert(t1 =~= n1);
    assert(t2 =~= n2);
}

impl FieldAttrError {
    /// The message the macro reports.
    pub fn message(&self) -> (text: &'static str)
        ensures
            text@ == (match *self {
                FieldAttrError::Unknown => "unknown `deepclone` field attribute, expected `clone`, `default`, or `with`"@,
                FieldAttrError::Conflicting => "conflicting `deepclone` field attributes"@,
                FieldAttrError::UnderWholeClone => "a type cloned whole by `#[deepclone(clone)]` takes no `deepclone` field attributes"@,
            }),
    {
        match self {
            FieldAttrError::Unknown => "unknown `deepclone` field attribute, expected `clone`, `default`, or `with`",
            FieldAttrError::Conflicting => "conflicting `deepclone` field attributes",
            FieldAttrError::UnderWholeClone => "a type cloned whole by `#[deepclone(clone)]` takes no `deepclone` field attributes",
        }
    }
}

impl ContainerAttrError {
    /// The message the macro reports.
    pub fn message(&self) -> (text: &'static str)
        ensures
            text@ == (match *self {
                ContainerAttrError::Unknown => "unknown `deepclone` container attribute, expected `bound = \"..\"` or `clone`"@,
                ContainerAttrError::NotAString => "`bound` expects a string, as in `bound = \"T: Copy\"`"@,
            }),
    {
        match self {
            ContainerAttrError::Unknown => "unknown `deepclone` container attribute, expected `bound = \"..\"` or `clone`",
            ContainerAttrError::NotAString => "`bound` expects a string, as in `bound = \"T: Copy\"`",
        }
    }
}

/// The message the macro reports for a union.
pub fn union_message() -> (text: &'static str)
    ensures
        text@ == "`DeepClone` cannot be derived for unions, because which field is live is not known statically"@,
{
    "`DeepClone` cannot be derived for unions, because which field is live is not known statically"
}

} // verus!
