use crate::name::{lemma_from_str, parse_spec, StrunemixName};
use vstd::prelude::*;
use vstd::std_specs::convert::FromSpec;

verus! {

/// An enumeration of the data of a structure's fields: one variant for each
/// field, which carries the field's value.
pub trait StrunemixData<T>: Sized where T: StrunemixName + From<Self> {
    /// The name of the field that this value belongs to.
    fn name(self) -> (r: T)
        ensures
            call_ensures(T::from, (self,), r),
            T::obeys_from_spec() ==> r == T::from_spec(self),
    {
        T::from(self)
    }
}

/// The rule that turns a field's name and a string into the data of that
/// field. It is written by hand for each enumeration of data.
pub trait StrunemixParsableData<'a, T>: Sized where T: StrunemixName {
    /// The data of the field `s`, read from `arg`.
    fn from_name_and_data(s: T, arg: &'a str) -> Result<Self, ()>;

    /// The data of the field whose name is the string `s`, read from `arg`.
    fn from_str_and_data(s: &str, arg: &'a str) -> (r: Result<Self, ()>)
        ensures
            match parse_spec::<T>(s@) {
                Some(n) => call_ensures(Self::from_name_and_data, (n, arg), r),
                None => r is Err,
            },
    {
        let parsed = T::from_str(s);
        proof {
            lemma_from_str::<T>(s@, parsed);
        }
        match parsed {
            Ok(name) => Self::from_name_and_data(name, arg),
            Err(_) => Err(()),
        }
    }
}

} // verus!
