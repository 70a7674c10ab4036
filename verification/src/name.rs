use crate::error::{StrunemixFromError, StrunemixParseError};
use vstd::prelude::*;

verus! {

/// An enumeration of the names of a structure's fields: one unit variant for
/// each field, in the order of declaration.
pub trait StrunemixName: Sized {
    /// All the variants, in the order of declaration. An implementation that
    /// is verified says which they are.
    open spec fn variants() -> Seq<Self> {
        arbitrary()
    }

    /// The field's name as written in the structure: a function of the
    /// variant alone.
    open spec fn label(&self) -> Seq<char> {
        (arbitrary::<spec_fn(Self) -> Seq<char>>())(*self)
    }

    /// The name of the enumeration itself.
    open spec fn enum_label() -> Seq<char> {
        arbitrary()
    }

    /// The field's name as a string slice.
    fn get_str(&self) -> (r: &'static str)
        ensures
            r@ == self.label(),
    ;

    /// The one variant that a field's name stands for.
    fn from_str(name: &str) -> (r: Result<Self, StrunemixFromError>)
        ensures
            match r {
                Ok(n) => n.label() == name@ && forall|m: Self| m.label() == name@ ==> m == n,
                Err(e) => {
                    &&& forall|m: Self| m.label() != name@
                    &&& e matches StrunemixFromError::NotAnEnumName(text, owner)
                    &&& text@ == name@
                    &&& owner@ == Self::enum_label()
                },
            },
    ;
}

/// The rule that turns a string into the data of one field. It is written by
/// hand for each enumeration of names, one arm for each variant.
pub trait StrunemixParsableData<'a, U>: StrunemixName {
    fn add_data(&self, data: &'a str) -> Result<U, StrunemixParseError>;
}

/// `names` holds every variant of `T` once, and no two of its labels agree.
pub open spec fn listed_once<T: StrunemixName>(names: Seq<T>) -> bool {
    &&& forall|n: T| #[trigger] names.contains(n)
    &&& forall|i: int, j: int|
        0 <= i < names.len() && 0 <= j < names.len() && #[trigger] names[i].label()
            == #[trigger] names[j].label() ==> i == j
}

/// The variant of `T` whose label is `s`, if there is one.
pub open spec fn parse_spec<T: StrunemixName>(s: Seq<char>) -> Option<T> {
    if exists|n: T| n.label() == s {
        Some(choose|n: T| n.label() == s)
    } else {
        None
    }
}

/// What a failed parse of `s` reports: the string itself and the name of the
/// enumeration that was searched.
pub open spec fn is_not_a_name<T: StrunemixName>(e: StrunemixFromError, s: Seq<char>) -> bool {
    e matches StrunemixFromError::NotAnEnumName(text, owner) && text@ == s && owner@
        == T::enum_label()
}

/// What `from_str` promises of its result `r` on the string `s`.
pub open spec fn parsed_as<T: StrunemixName>(s: Seq<char>, r: Result<T, StrunemixFromError>) -> bool {
    match r {
        Ok(n) => n.label() == s && forall|m: T| m.label() == s ==> m == n,
        Err(e) => (forall|m: T| m.label() != s) && is_not_a_name::<T>(e, s),
    }
}

/// A result of `from_str` is the variant with that label where there is one,
/// and else the error that names the string and the enumeration.
pub proof fn lemma_from_str<T: StrunemixName>(s: Seq<char>, r: Result<T, StrunemixFromError>)
    requires
        parsed_as::<T>(s, r),
    ensures
        match r {
            Ok(n) => parse_spec::<T>(s) == Some(n),
            Err(e) => parse_spec::<T>(s) is None && is_not_a_name::<T>(e, s),
        },
{
}

/// Parsing the label of a variant gives that variant back.
pub proof fn lemma_parse_label<T: StrunemixName>(n: T, r: Result<T, StrunemixFromError>)
    requires
        parsed_as::<T>(n.label(), r),
    ensures
        r == Ok::<T, StrunemixFromError>(n),
        parse_spec::<T>(n.label()) == Some(n),
{
}

/// Where every variant is listed once, a label is a key for its variant: a
/// string that holds the label of a name stands for that name.
pub proof fn lemma_label_is_key<T: StrunemixName>(n: T)
    requires
        listed_once::<T>(T::variants()),
    ensures
        parse_spec::<T>(n.label()) == Some(n),
{
    let m = choose|m: T| m.label() == n.label();
    assert(T::variants().contains(n));
    assert(T::variants().contains(m));
    let i = choose|i: int| 0 <= i < T::variants().len() && T::variants()[i] == n;
    let j = choose|j: int| 0 <= j < T::variants().len() && T::variants()[j] == m;
    assert(T::variants()[i].label() == T::variants()[j].label());
}

} // verus!
