use crate::array::array_into_vec;
use crate::data::StrunemixData;
use crate::error::StrunemixFromError;
use crate::form::{all_given, data_of, StrunemixForm};
use crate::name::{listed_once, parsed_as, StrunemixName};
use std::borrow::Cow;
use vstd::prelude::*;
use vstd::std_specs::convert::TryFromSpec;

verus! {

/// What the rebuilding of a structure gives for what the conversion from an
/// array gave: the structure, or an error without detail.
pub open spec fn rebuilt<S, E>(converted: Result<S, E>) -> Result<S, ()> {
    match converted {
        Ok(s) => Ok(s),
        Err(_) => Err(()),
    }
}

/// Whether `r` is what the rebuilding gives for one result that the
/// conversion of `S` from the array `data` could give.
pub open spec fn converted<S: TryFrom<[U; N]>, U, const N: usize>(
    data: [U; N],
    r: Result<S, ()>,
) -> bool {
    exists|c: Result<S, <S as TryFrom<[U; N]>>::Error>|
        call_ensures(<S as TryFrom<[U; N]>>::try_from, (data,), c) && r == #[trigger] rebuilt(c)
}

/// A structure whose fields have an enumeration of names `T` and an
/// enumeration of data `U`, with `N` fields in all.
pub trait StrunemixTrait<T, U, const N: usize>: Sized where
    T: StrunemixName + From<U>,
    U: StrunemixData<T>,
 {
    /// The number of fields.
    const FIELDS_COUNT: usize = N;

    /// The values of the fields, each in its variant, in the order of
    /// declaration: a function of the structure alone.
    open spec fn fields(&self) -> Seq<U> {
        (arbitrary::<spec_fn(Self) -> Seq<U>>())(*self)
    }

    /// The names of the fields, in the order of declaration: every variant
    /// once.
    fn as_attr_name_array() -> (r: [T; N])
        ensures
            r@ == T::variants(),
            listed_once::<T>(r@),
    ;

    /// The values of the fields, each in its variant, in the order of
    /// declaration. The structure is used up.
    fn to_attr_data_array(self) -> (r: [U; N])
        ensures
            r@ == self.fields(),
    ;

    /// The structure whose fields hold the data of the array.
    fn from_attr_data_array(data: [U; N]) -> (r: Result<Self, ()>) where Self: TryFrom<[U; N]>
        ensures
            converted::<Self, U, N>(data, r),
            Self::obeys_try_from_spec() ==> r == rebuilt(Self::try_from_spec(data)),
    {
        let c = Self::try_from(data);
        let ghost given = c;
        let r = match c {
            Ok(s) => Ok(s),
            Err(_) => Err(()),
        };
        assert(r == rebuilt(given));
        r
    }

    /// The form in which every field has the data that the structure held.
    fn to_form<A>(self) -> (r: StrunemixForm<T, U, N, A>) where A: Default
        ensures
            r.wf(),
            r@.len() == N,
            self.fields().len() == N,
            forall|i: int|
                0 <= i < N ==> (#[trigger] r@[i]).0 == Some(self.fields()[i]) && call_ensures(
                    A::default,
                    (),
                    r@[i].1,
                ),
            all_given(r@),
            data_of(r@) == self.fields(),
    {
        let names = array_into_vec(Self::as_attr_name_array());
        let data = array_into_vec(self.to_attr_data_array());
        StrunemixForm::full(names, data)
    }

    /// The structure whose fields hold the data of the form, where the form
    /// is complete.
    fn from_form<A>(form: StrunemixForm<T, U, N, A>) -> (r: Result<Self, ()>) where
        Self: TryFrom<[U; N]>,

        requires
            form.wf(),
        ensures
            !all_given(form@) ==> r is Err,
            all_given(form@) ==> forall|a: [U; N]|
                a@ == data_of(form@) ==> #[trigger] converted::<Self, U, N>(a, r),
            all_given(form@) && Self::obeys_try_from_spec() ==> forall|a: [U; N]|
                a@ == data_of(form@) ==> r == rebuilt(#[trigger] Self::try_from_spec(a)),
    {
        match form.to_data_array() {
            Err(_) => Err(()),
            Ok(data) => {
                proof {
                    assert forall|a: [U; N]| a@ == data_of(form@) implies a == data by {
                        assert(a@ =~= data@);
                    }
                }
                Self::from_attr_data_array(data)
            },
        }
    }

    /// The form in which no field has its data.
    fn empty_form<A>() -> (r: StrunemixForm<T, U, N, A>) where A: Default
        ensures
            r.wf(),
            r@.len() == N,
            forall|i: int|
                0 <= i < N ==> (#[trigger] r@[i]).0 is None && call_ensures(
                    A::default,
                    (),
                    r@[i].1,
                ),
            N > 0 ==> !all_given(r@),
    {
        let names = array_into_vec(Self::as_attr_name_array());
        StrunemixForm::empty(names)
    }
}

/// A string that may be the name of a field of a structure.
pub trait AsEnumName<T, U, const N: usize> {
    /// The string's characters.
    spec fn text(&self) -> Seq<char>;

    /// The name, in the structure `S`, of the field that the string names.
    fn field_of<S>(&self) -> (r: Result<T, StrunemixFromError>) where
        S: StrunemixTrait<T, U, N>,
        T: StrunemixName + From<U>,
        U: StrunemixData<T>,

        ensures
            parsed_as::<T>(self.text(), r),
    ;
}

impl<T, U, const N: usize> AsEnumName<T, U, N> for &str {
    open spec fn text(&self) -> Seq<char> {
        self@
    }

    fn field_of<S>(&self) -> (r: Result<T, StrunemixFromError>) where
        S: StrunemixTrait<T, U, N>,
        T: StrunemixName + From<U>,
        U: StrunemixData<T>,
     {
        T::from_str(self)
    }
}

impl<T, U, const N: usize> AsEnumName<T, U, N> for Cow<'_, str> {
    open spec fn text(&self) -> Seq<char> {
        self@
    }

    fn field_of<S>(&self) -> (r: Result<T, StrunemixFromError>) where
        S: StrunemixTrait<T, U, N>,
        T: StrunemixName + From<U>,
        U: StrunemixData<T>,
     {
        match self {
            Cow::Borrowed(s) => T::from_str(s),
            Cow::Owned(s) => T::from_str(s.as_str()),
        }
    }
}

} // verus!
