use crate::data::StrunemixData;
use crate::array::{array_from_vec, turned};
use crate::error::{StrunemixError, StrunemixFromError, StrunemixParseError};
use crate::name::{
    is_not_a_name, lemma_from_str, listed_once, parse_spec, StrunemixName, StrunemixParsableData,
};
use crate::text::str_eq;
use vstd::prelude::*;

verus! {

/// A key of a form: a name of the enumeration, or a string that may be the
/// label of one.
pub trait QueryNameTrait<T> where T: StrunemixName {
    /// The name that the key stands for, if it stands for one.
    spec fn named(&self) -> Option<T>;

    /// The key as text.
    spec fn text(&self) -> Seq<char>;

    fn to_attrname(self) -> (r: Result<T, StrunemixFromError>)
        ensures
            match r {
                Ok(n) => self.named() == Some(n),
                Err(e) => self.named() is None && is_not_a_name::<T>(e, self.text()),
            },
    ;
}

impl<T> QueryNameTrait<T> for &str where T: StrunemixName {
    open spec fn named(&self) -> Option<T> {
        parse_spec::<T>(self@)
    }

    open spec fn text(&self) -> Seq<char> {
        self@
    }

    fn to_attrname(self) -> (r: Result<T, StrunemixFromError>) {
        let r = T::from_str(self);
        proof {
            lemma_from_str::<T>(self@, r);
        }
        r
    }
}

impl<T> QueryNameTrait<T> for T where T: StrunemixName {
    open spec fn named(&self) -> Option<T> {
        Some(*self)
    }

    open spec fn text(&self) -> Seq<char> {
        self.label()
    }

    fn to_attrname(self) -> (r: Result<T, StrunemixFromError>) {
        Ok(self)
    }
}

/// The place of the name `n` in the order of declaration.
pub open spec fn position_of<T: StrunemixName>(n: T) -> int {
    choose|i: int| 0 <= i < T::variants().len() && T::variants()[i] == n
}

/// Where every variant is listed once, each name has one place.
pub proof fn lemma_position<T: StrunemixName>(n: T, i: int)
    requires
        listed_once::<T>(T::variants()),
    ensures
        0 <= position_of(n) < T::variants().len(),
        T::variants()[position_of(n)] == n,
        0 <= i < T::variants().len() && T::variants()[i].label() == n.label() ==> i == position_of(
            n,
        ),
{
    assert(T::variants().contains(n));
}

/// An optional reference and an optional value that agree.
pub open spec fn refers_to<V>(r: Option<&V>, v: Option<V>) -> bool {
    match (r, v) {
        (Some(x), Some(y)) => *x == y,
        (None, None) => true,
        _ => false,
    }
}

/// The result of an operation on a key that stands for no name: the error
/// that names the key's text and the enumeration.
pub open spec fn rejects<T: StrunemixName, R>(r: Result<R, StrunemixError>, text: Seq<char>) -> bool {
    r matches Err(StrunemixError::ConversionError(inner)) && is_not_a_name::<T>(inner, text)
}

/// The slots after the data `parsed` was offered for the slot at `place`, and
/// the result that goes with them: data are stored, an error is handed on and
/// leaves the slots as they were.
pub open spec fn stored<U, A>(
    before: Seq<(Option<U>, A)>,
    place: int,
    parsed: Result<U, StrunemixParseError>,
    after: Seq<(Option<U>, A)>,
    r: Result<(), StrunemixError>,
) -> bool {
    match parsed {
        Ok(data) => r is Ok && after == before.update(place, (Some(data), before[place].1)),
        Err(e) => r == Err::<(), StrunemixError>(StrunemixError::ParseError(e)) && after == before,
    }
}

/// The slots after the parsing rule of the name `n` was run on `text` and its
/// result offered for the slot of `n`: `stored` holds of one result that the
/// rule could give.
pub open spec fn parsed_and_stored<'a, T: StrunemixParsableData<'a, U>, U, A>(
    before: Seq<(Option<U>, A)>,
    n: T,
    text: &'a str,
    after: Seq<(Option<U>, A)>,
    r: Result<(), StrunemixError>,
) -> bool {
    exists|parsed: Result<U, StrunemixParseError>|
        call_ensures(<T as StrunemixParsableData<'a, U>>::add_data, (&n, text), parsed)
            && #[trigger] stored(before, position_of(n), parsed, after, r)
}

/// Whether every slot holds data.
pub open spec fn all_given<U, A>(slots: Seq<(Option<U>, A)>) -> bool {
    forall|i: int| 0 <= i < slots.len() ==> (#[trigger] slots[i]).0 is Some
}

/// The data of the slots, in their order.
pub open spec fn data_of<U, A>(slots: Seq<(Option<U>, A)>) -> Seq<U> {
    Seq::new(slots.len(), |i: int| slots[i].0->0)
}

/// The slots after data were set, one place after the other: `sets` holds
/// the place and the data of each call, the first call first.
pub open spec fn after_sets<U, A>(slots: Seq<(Option<U>, A)>, sets: Seq<(int, U)>) -> Seq<
    (Option<U>, A),
>
    decreases sets.len(),
{
    if sets.len() == 0 {
        slots
    } else {
        let before = after_sets(slots, sets.drop_last());
        before.update(sets.last().0, (Some(sets.last().1), before[sets.last().0].1))
    }
}

/// The data of the last of `sets` that went to `place`, if one did.
pub open spec fn last_set<U>(sets: Seq<(int, U)>, place: int) -> Option<U>
    decreases sets.len(),
{
    if sets.len() == 0 {
        None
    } else if sets.last().0 == place {
        Some(sets.last().1)
    } else {
        last_set(sets.drop_last(), place)
    }
}

/// A form with a slot that holds no data is not complete: so it is not
/// complete while it is empty and has a slot, and not after data were taken
/// away from a slot.
pub proof fn lemma_incomplete<U, A>(slots: Seq<(Option<U>, A)>, place: int)
    requires
        0 <= place < slots.len(),
    ensures
        slots[place].0 is None ==> !all_given(slots),
        !all_given(slots.update(place, (None, slots[place].1))),
{
    let removed = slots.update(place, (None::<U>, slots[place].1));
    assert(removed[place].0 is None);
}

/// After any calls that set data, each slot holds what the last call for its
/// place gave, and what it held before where there was none: the order of
/// the calls for different places does not matter, and the information
/// beside the data stays.
pub proof fn lemma_after_sets<U, A>(slots: Seq<(Option<U>, A)>, sets: Seq<(int, U)>, place: int)
    requires
        0 <= place < slots.len(),
        forall|j: int| 0 <= j < sets.len() ==> 0 <= (#[trigger] sets[j]).0 < slots.len(),
    ensures
        after_sets(slots, sets).len() == slots.len(),
        after_sets(slots, sets)[place].1 == slots[place].1,
        after_sets(slots, sets)[place].0 == match last_set(sets, place) {
            Some(data) => Some(data),
            None => slots[place].0,
        },
        last_set(sets, place) is Some ==> exists|j: int|
            0 <= j < sets.len() && (#[trigger] sets[j]).0 == place,
    decreases sets.len(),
{
    if sets.len() > 0 {
        let earlier = sets.drop_last();
        lemma_after_sets(slots, earlier, place);
        lemma_after_sets(slots, earlier, sets.last().0);
        if sets.last().0 == place {
            assert(sets[sets.len() - 1].0 == place);
        } else if last_set(earlier, place) is Some {
            let j = choose|j: int| 0 <= j < earlier.len() && (#[trigger] earlier[j]).0 == place;
            assert(sets[j].0 == place);
        }
    }
}

/// A form that was empty is complete only after data were set for every
/// place.
pub proof fn lemma_complete_only_after_all<U, A>(
    slots: Seq<(Option<U>, A)>,
    sets: Seq<(int, U)>,
    place: int,
)
    requires
        0 <= place < slots.len(),
        forall|i: int| 0 <= i < slots.len() ==> (#[trigger] slots[i]).0 is None,
        forall|j: int| 0 <= j < sets.len() ==> 0 <= (#[trigger] sets[j]).0 < slots.len(),
        all_given(after_sets(slots, sets)),
    ensures
        exists|j: int| 0 <= j < sets.len() && (#[trigger] sets[j]).0 == place,
{
    lemma_after_sets(slots, sets, place);
    assert(after_sets(slots, sets)[place].0 is Some);
}

/// The array of a complete form holds, at the place of each name, the data
/// of that name: the order of the array is the order of the names.
pub proof fn lemma_data_in_order<T: StrunemixName, U, A>(slots: Seq<(Option<U>, A)>, n: T)
    requires
        listed_once::<T>(T::variants()),
        slots.len() == T::variants().len(),
        all_given(slots),
    ensures
        data_of(slots).len() == T::variants().len(),
        0 <= position_of(n) < data_of(slots).len(),
        T::variants()[position_of(n)] == n,
        slots[position_of(n)].0 == Some(data_of(slots)[position_of(n)]),
{
    lemma_position::<T>(n, 0);
}

/// A form over the fields of a structure: for each name, in the order of
/// declaration, the field's data if it was given and a piece of information
/// of the caller's choice.
#[derive(Debug, PartialEq, Clone)]
pub struct StrunemixForm<T, U, const N: usize, A = ()> where
    T: StrunemixName + From<U>,
    U: StrunemixData<T>,
 {
    names: Vec<T>,
    slots: Vec<(Option<U>, A)>,
}

impl<T, U, const N: usize, A> View for StrunemixForm<T, U, N, A> where
    T: StrunemixName + From<U>,
    U: StrunemixData<T>,
 {
    type V = Seq<(Option<U>, A)>;

    /// The slots of the form, in the order of declaration of the names.
    closed spec fn view(&self) -> Seq<(Option<U>, A)> {
        self.slots@
    }
}

impl<T, U, const N: usize, A> StrunemixForm<T, U, N, A> where
    T: StrunemixName + From<U>,
    U: StrunemixData<T>,
 {
    /// The form has one slot for each name of `T`, in the order of
    /// declaration.
    pub closed spec fn wf(&self) -> bool {
        &&& self.names@ == T::variants()
        &&& listed_once::<T>(T::variants())
        &&& self.names@.len() == N
        &&& self.slots@.len() == N
    }

    /// What follows from `wf`.
    pub proof fn lemma_wf(&self)
        requires
            self.wf(),
        ensures
            self@.len() == N,
            T::variants().len() == N,
            listed_once::<T>(T::variants()),
    {
    }

    /// A form made of its names and its slots.
    pub(crate) fn from(names: Vec<T>, slots: Vec<(Option<U>, A)>) -> (r: Self)
        requires
            names@ == T::variants(),
            listed_once::<T>(T::variants()),
            names@.len() == N,
            slots@.len() == N,
        ensures
            r.wf(),
            r@ == slots@,
    {
        StrunemixForm { names, slots }
    }

    /// The form in which no field has its data yet.
    pub(crate) fn empty(names: Vec<T>) -> (r: Self) where A: Default
        requires
            names@ == T::variants(),
            listed_once::<T>(T::variants()),
            names@.len() == N,
        ensures
            r.wf(),
            r@.len() == N,
            forall|i: int|
                0 <= i < N ==> (#[trigger] r@[i]).0 is None && call_ensures(
                    A::default,
                    (),
                    r@[i].1,
                ),
            N > 0 ==> !all_given(r@),
    {
        let mut slots: Vec<(Option<U>, A)> = Vec::new();
        while slots.len() < N
            invariant
                slots@.len() <= N,
                forall|i: int|
                    0 <= i < slots@.len() ==> (#[trigger] slots@[i]).0 is None && call_ensures(
                        A::default,
                        (),
                        slots@[i].1,
                    ),
            decreases N - slots@.len(),
        {
            slots.push((None, A::default()));
        }
        let r = Self::from(names, slots);
        proof {
            if N > 0 {
                assert(r@[0].0 is None);
            }
        }
        r
    }

    /// The form in which each field has the data given for it, in the order
    /// of declaration.
    pub(crate) fn full(names: Vec<T>, data: Vec<U>) -> (r: Self) where A: Default
        requires
            names@ == T::variants(),
            listed_once::<T>(T::variants()),
            names@.len() == N,
            data@.len() == N,
        ensures
            r.wf(),
            r@.len() == N,
            forall|i: int|
                0 <= i < N ==> (#[trigger] r@[i]).0 == Some(data@[i]) && call_ensures(
                    A::default,
                    (),
                    r@[i].1,
                ),
            all_given(r@),
            data_of(r@) == data@,
    {
        let ghost all = data@;
        let mut rest = data;
        let mut backwards: Vec<(Option<U>, A)> = Vec::new();
        while rest.len() > 0
            invariant
                all.len() == N,
                rest@.len() + backwards@.len() == N,
                rest@ == all.subrange(0, rest@.len() as int),
                forall|j: int|
                    0 <= j < backwards@.len() ==> (#[trigger] backwards@[j]).0 == Some(
                        all[N - 1 - j],
                    ) && call_ensures(A::default, (), backwards@[j].1),
            decreases rest@.len(),
        {
            let ghost k = rest@.len() - 1;
            assert(rest@[k] == all[k]);
            let item = rest.pop().unwrap();
            backwards.push((Some(item), A::default()));
        }
        let slots = turned(backwards);
        let r = Self::from(names, slots);
        assert(data_of(r@) =~= all);
        r
    }

    /// The place of a name among the slots.
    fn position(&self, name: &T) -> (i: usize)
        requires
            self.wf(),
        ensures
            i == position_of(*name),
            i < N,
    {
        let wanted = name.get_str();
        let mut i: usize = 0;
        while i < self.names.len()
            invariant
                self.wf(),
                wanted@ == name.label(),
                i <= self.names@.len(),
                forall|j: int| 0 <= j < i ==> self.names@[j].label() != name.label(),
            decreases self.names@.len() - i,
        {
            if str_eq(self.names[i].get_str(), wanted) {
                proof {
                    lemma_position::<T>(*name, i as int);
                }
                return i;
            }
            i += 1;
        }
        proof {
            lemma_position::<T>(*name, 0);
            assert(self.names@[position_of(*name)].label() == name.label());
        }
        0
    }

    /// The data of a field, if it was given.
    pub fn get_data<Q: QueryNameTrait<T>>(&self, name: Q) -> (r: Result<Option<&U>, StrunemixError>)
        requires
            self.wf(),
        ensures
            match name.named() {
                Some(n) => r matches Ok(d) && refers_to(d, self@[position_of(n)].0),
                None => rejects::<T, _>(r, name.text()),
            },
    {
        match name.to_attrname() {
            Err(e) => Err(StrunemixError::ConversionError(e)),
            Ok(n) => {
                let i = self.position(&n);
                Ok(self.slots[i].0.as_ref())
            },
        }
    }

    /// The information kept beside a field.
    pub fn get_info<Q: QueryNameTrait<T>>(&self, name: Q) -> (r: Result<&A, StrunemixError>)
        requires
            self.wf(),
        ensures
            match name.named() {
                Some(n) => r matches Ok(a) && *a == self@[position_of(n)].1,
                None => rejects::<T, _>(r, name.text()),
            },
    {
        match name.to_attrname() {
            Err(e) => Err(StrunemixError::ConversionError(e)),
            Ok(n) => {
                let i = self.position(&n);
                Ok(&self.slots[i].1)
            },
        }
    }

    /// The data of a field, to be changed in place if it was given.
    pub fn get_data_mut<Q: QueryNameTrait<T>>(&mut self, name: Q) -> (r: Result<
        Option<&mut U>,
        StrunemixError,
    >)
        requires
            old(self).wf(),
        ensures
            final(self).wf(),
            match name.named() {
                Some(n) => r is Ok && (match old(self)@[position_of(n)].0 {
                    Some(u) => r.unwrap() is Some && *r.unwrap().unwrap() == u && final(self)@
                        == old(self)@.update(
                        position_of(n),
                        (Some(*final(r.unwrap().unwrap())), old(self)@[position_of(n)].1),
                    ),
                    None => r.unwrap() is None && final(self)@ == old(self)@,
                }),
                None => final(self)@ == old(self)@ && rejects::<T, _>(r, name.text()),
            },
    {
        match name.to_attrname() {
            Err(e) => Err(StrunemixError::ConversionError(e)),
            Ok(n) => {
                let i = self.position(&n);
                Ok(self.slots[i].0.as_mut())
            },
        }
    }

    /// The information kept beside a field, to be changed in place.
    pub fn get_info_mut<Q: QueryNameTrait<T>>(&mut self, name: Q) -> (r: Result<
        &mut A,
        StrunemixError,
    >)
        requires
            old(self).wf(),
        ensures
            final(self).wf(),
            match name.named() {
                Some(n) => r is Ok && *r.unwrap() == old(self)@[position_of(n)].1 && final(self)@
                    == old(self)@.update(
                    position_of(n),
                    (old(self)@[position_of(n)].0, *final(r.unwrap())),
                ),
                None => final(self)@ == old(self)@ && rejects::<T, _>(r, name.text()),
            },
    {
        match name.to_attrname() {
            Err(e) => Err(StrunemixError::ConversionError(e)),
            Ok(n) => {
                let i = self.position(&n);
                Ok(&mut self.slots[i].1)
            },
        }
    }

    /// Give a field its data, whether it had some or not.
    pub fn set_data<Q: QueryNameTrait<T>>(&mut self, name: Q, data: U) -> (r: Result<
        (),
        StrunemixError,
    >)
        requires
            old(self).wf(),
        ensures
            final(self).wf(),
            match name.named() {
                Some(n) => r is Ok && final(self)@ == old(self)@.update(
                    position_of(n),
                    (Some(data), old(self)@[position_of(n)].1),
                ),
                None => final(self)@ == old(self)@ && rejects::<T, ()>(r, name.text()),
            },
    {
        match name.to_attrname() {
            Err(e) => Err(StrunemixError::ConversionError(e)),
            Ok(n) => {
                let i = self.position(&n);
                self.slots[i].0 = Some(data);
                Ok(())
            },
        }
    }

    /// Take a field's data away.
    pub fn remove_data<Q: QueryNameTrait<T>>(&mut self, name: Q) -> (r: Result<(), StrunemixError>)
        requires
            old(self).wf(),
        ensures
            final(self).wf(),
            match name.named() {
                Some(n) => r is Ok && final(self)@ == old(self)@.update(
                    position_of(n),
                    (None, old(self)@[position_of(n)].1),
                ) && !all_given(final(self)@),
                None => final(self)@ == old(self)@ && rejects::<T, ()>(r, name.text()),
            },
    {
        match name.to_attrname() {
            Err(e) => Err(StrunemixError::ConversionError(e)),
            Ok(n) => {
                let i = self.position(&n);
                self.slots[i].0 = None;
                assert(self@[i as int].0 is None);
                Ok(())
            },
        }
    }

    /// Replace the information kept beside a field.
    pub fn set_info<Q: QueryNameTrait<T>>(&mut self, name: Q, info: A) -> (r: Result<
        (),
        StrunemixError,
    >)
        requires
            old(self).wf(),
        ensures
            final(self).wf(),
            match name.named() {
                Some(n) => r is Ok && final(self)@ == old(self)@.update(
                    position_of(n),
                    (old(self)@[position_of(n)].0, info),
                ),
                None => final(self)@ == old(self)@ && rejects::<T, ()>(r, name.text()),
            },
    {
        match name.to_attrname() {
            Err(e) => Err(StrunemixError::ConversionError(e)),
            Ok(n) => {
                let i = self.position(&n);
                self.slots[i].1 = info;
                Ok(())
            },
        }
    }
    /// Store what the parsing rule of the field `name` gave, or hand its
    /// error on.
    pub fn store_parsed(&mut self, name: T, parsed: Result<U, StrunemixParseError>) -> (r: Result<
        (),
        StrunemixError,
    >)
        requires
            old(self).wf(),
        ensures
            final(self).wf(),
            stored(old(self)@, position_of(name), parsed, final(self)@, r),
    {
        match parsed {
            Err(e) => Err(StrunemixError::ParseError(e)),
            Ok(data) => {
                let i = self.position(&name);
                self.slots[i].0 = Some(data);
                Ok(())
            },
        }
    }

    /// Give a field the data that its parsing rule reads from a string.
    pub fn set_data_str<'a, Q: QueryNameTrait<T>>(&mut self, name: Q, data: &'a str) -> (r: Result<
        (),
        StrunemixError,
    >) where T: StrunemixParsableData<'a, U>
        requires
            old(self).wf(),
        ensures
            final(self).wf(),
            match name.named() {
                Some(n) => parsed_and_stored(old(self)@, n, data, final(self)@, r),
                None => final(self)@ == old(self)@ && rejects::<T, ()>(r, name.text()),
            },
    {
        match name.to_attrname() {
            Err(e) => Err(StrunemixError::ConversionError(e)),
            Ok(n) => {
                let parsed = n.add_data(data);
                let ghost given = parsed;
                let r = self.store_parsed(n, parsed);
                assert(stored(old(self)@, position_of(n), given, self@, r));
                r
            },
        }
    }

    /// Whether every field has its data.
    pub fn is_complete(&self) -> (r: bool)
        ensures
            r == all_given(self@),
    {
        let mut i: usize = 0;
        while i < self.slots.len()
            invariant
                i <= self.slots@.len(),
                forall|j: int| 0 <= j < i ==> (#[trigger] self.slots@[j]).0 is Some,
            decreases self.slots@.len() - i,
        {
            if self.slots[i].0.is_none() {
                return false;
            }
            i += 1;
        }
        true
    }

    /// The data of all the fields in the order of declaration, where every
    /// field has its data.
    pub fn to_data_array(self) -> (r: Result<[U; N], StrunemixError>)
        requires
            self.wf(),
        ensures
            match r {
                Ok(a) => all_given(self@) && a@ == data_of(self@),
                Err(e) => !all_given(self@) && e is IncompleteForm,
            },
    {
        if !self.is_complete() {
            return Err(StrunemixError::IncompleteForm);
        }
        let ghost all = self.slots@;
        let mut slots = self.slots;
        let mut backwards: Vec<U> = Vec::new();
        while slots.len() > 0
            invariant
                all.len() == N,
                all_given(all),
                slots@.len() + backwards@.len() == N,
                slots@ == all.subrange(0, slots@.len() as int),
                forall|j: int|
                    0 <= j < backwards@.len() ==> Some(#[trigger] backwards@[j]) == all[N - 1
                        - j].0,
            decreases slots@.len(),
        {
            let ghost k = slots@.len() - 1;
            assert(slots@[k] == all[k]);
            let (data, _info) = slots.pop().unwrap();
            backwards.push(data.unwrap());
        }
        let data = turned(backwards);
        let filled = array_from_vec::<U, N>(data);
        let a = filled.unwrap();
        assert(a@ =~= data_of(self@));
        Ok(a)
    }

    /// The information kept beside each field, in the order of declaration.
    pub fn get_info_array(&self) -> (r: Vec<&A>)
        ensures
            r@.len() == self@.len(),
            forall|i: int| 0 <= i < r@.len() ==> *(#[trigger] r@[i]) == self@[i].1,
    {
        let mut infos: Vec<&A> = Vec::new();
        let mut i: usize = 0;
        while i < self.slots.len()
            invariant
                i <= self.slots@.len(),
                infos@.len() == i,
                forall|j: int| 0 <= j < i ==> *(#[trigger] infos@[j]) == self.slots@[j].1,
            decreases self.slots@.len() - i,
        {
            infos.push(&self.slots[i].1);
            i += 1;
        }
        infos
    }
}

} // verus!
