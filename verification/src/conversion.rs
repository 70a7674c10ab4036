use crate::array::turned;
use crate::error::StrunemixFromError;
use crate::generator::{
    derived_from, included_places, lemma_included_among, Derivation, FieldDecl, Reconstruction,
    StructDecl,
};
use crate::text::str_eq;
use vstd::prelude::*;

verus! {

/// Whether no two fields that have an identifier share it.
pub open spec fn distinct_idents(fields: Seq<FieldDecl>) -> bool {
    forall|i: int, j: int|
        0 <= i < fields.len() && 0 <= j < fields.len() && (#[trigger] fields[i]).ident is Some && (
        #[trigger] fields[j]).ident is Some && fields[i].ident->0@ == fields[j].ident->0@ ==> i
            == j
}

/// What `parse` gives for the string `name`: the first variant with that
/// label, or the error that names the string and the enumeration of names.
pub open spec fn parsed(d: Derivation, name: Seq<char>, r: Result<usize, StrunemixFromError>) -> bool {
    match r {
        Ok(k) => {
            &&& k < d.fields@.len()
            &&& d.fields@[k as int].label@ == name
            &&& forall|j: int| 0 <= j < k ==> (#[trigger] d.fields@[j]).label@ != name
        },
        Err(e) => {
            &&& forall|j: int| 0 <= j < d.fields@.len() ==> (#[trigger] d.fields@[j]).label@ != name
            &&& e matches StrunemixFromError::NotAnEnumName(text, owner)
            &&& text@ == name
            &&& owner@ == d.name_enum@
        },
    }
}

/// Whether each item of the data carries the number of its own place.
pub open spec fn in_order<V>(data: Seq<(usize, V)>) -> bool {
    forall|k: int| 0 <= k < data.len() ==> (#[trigger] data[k]).0 == k
}

/// The default values, where there are any.
pub open spec fn values_of<V>(default: Option<Vec<V>>) -> Seq<V> {
    match default {
        Some(values) => values@,
        None => Seq::empty(),
    }
}

/// What the code that is written for a structure does, on plain values: a
/// variant is the number of its place among the included fields, a structure
/// the values of all its fields in the order of declaration.
impl Derivation {
    /// The included fields are counted, and they stand in the order of
    /// declaration, each at a place of its own; every field is included
    /// exactly where the structure is made again from the array alone.
    pub open spec fn wf(&self) -> bool {
        &&& self.fields_count == self.fields@.len()
        &&& self.fields@.len() <= self.total_fields
        &&& forall|k: int|
            0 <= k < self.fields@.len() ==> (#[trigger] self.fields@[k]).position
                < self.total_fields
        &&& forall|j: int, k: int|
            0 <= j < k < self.fields@.len() ==> (#[trigger] self.fields@[j]).position < (
            #[trigger] self.fields@[k]).position
        &&& (self.reconstruction == Reconstruction::Exact <==> self.fields@.len()
            == self.total_fields)
    }

    /// Whether no two variants share a label.
    pub open spec fn distinct_labels(&self) -> bool {
        forall|j: int, k: int|
            0 <= j < self.fields@.len() && 0 <= k < self.fields@.len() && (
            #[trigger] self.fields@[j]).label@ == (#[trigger] self.fields@[k]).label@ ==> j == k
    }

    /// The variant of the field that stands at `place`, if the field is
    /// included.
    pub open spec fn variant_at(&self, place: int) -> Option<int> {
        if exists|k: int| 0 <= k < self.fields@.len() && self.fields@[k].position == place {
            Some(choose|k: int| 0 <= k < self.fields@.len() && self.fields@[k].position == place)
        } else {
            None
        }
    }

    /// The data of a structure whose fields hold `instance`: the value of
    /// each included field with the number of its variant, in the order of
    /// declaration.
    pub open spec fn data_of<V>(&self, instance: Seq<V>) -> Seq<(usize, V)> {
        Seq::new(
            self.fields@.len(),
            |k: int| (k as usize, instance[self.fields@[k].position as int]),
        )
    }

    /// The fields of the structure that is made of `data`: an included field
    /// holds the value of its variant, a skipped one that of `default`.
    pub open spec fn rebuilt<V>(&self, data: Seq<(usize, V)>, default: Seq<V>) -> Seq<V> {
        Seq::new(
            self.total_fields as nat,
            |p: int|
                match self.variant_at(p) {
                    Some(k) => data[k].1,
                    None => default[p],
                },
        )
    }

    /// The `k`-th of the included fields stands at the place `k` or behind
    /// it, and leaves room behind it for those that follow.
    pub proof fn lemma_places(&self, k: int)
        requires
            self.wf(),
            0 <= k < self.fields@.len(),
        ensures
            k <= self.fields@[k].position <= self.total_fields - (self.fields@.len() - k),
            self.variant_at(self.fields@[k].position as int) == Some(k),
    {
        self.lemma_place_low(k);
        self.lemma_place_high(k);
        let p = self.fields@[k].position as int;
        let c = choose|c: int| 0 <= c < self.fields@.len() && self.fields@[c].position == p;
        if c < k {
            assert(self.fields@[c].position < self.fields@[k].position);
        } else if k < c {
            assert(self.fields@[k].position < self.fields@[c].position);
        }
    }

    proof fn lemma_place_low(&self, k: int)
        requires
            self.wf(),
            0 <= k < self.fields@.len(),
        ensures
            k <= self.fields@[k].position,
        decreases k,
    {
        if k > 0 {
            self.lemma_place_low(k - 1);
            assert(self.fields@[k - 1].position < self.fields@[k].position);
        }
    }

    proof fn lemma_place_high(&self, k: int)
        requires
            self.wf(),
            0 <= k < self.fields@.len(),
        ensures
            self.fields@[k].position <= self.total_fields - (self.fields@.len() - k),
        decreases self.fields@.len() - k,
    {
        if k + 1 < self.fields@.len() {
            self.lemma_place_high(k + 1);
            assert(self.fields@[k].position < self.fields@[k + 1].position);
        }
    }

    /// Whether the derivation is well formed.
    pub fn check(&self) -> (r: bool)
        ensures
            r == self.wf(),
    {
        let n = self.fields.len();
        if self.fields_count != n || n > self.total_fields {
            return false;
        }
        let exact = match self.reconstruction {
            Reconstruction::Exact => true,
            _ => false,
        };
        if exact != (n == self.total_fields) {
            return false;
        }
        let mut k: usize = 0;
        while k < n
            invariant
                n == self.fields@.len(),
                k <= n,
                forall|i: int|
                    0 <= i < k ==> (#[trigger] self.fields@[i]).position < self.total_fields,
                forall|i: int, j: int|
                    0 <= i < j < k ==> (#[trigger] self.fields@[i]).position < (
                    #[trigger] self.fields@[j]).position,
            decreases n - k,
        {
            if self.fields[k].position >= self.total_fields {
                return false;
            }
            if k > 0 && self.fields[k - 1].position >= self.fields[k].position {
                assert(!(self.fields@[k - 1].position < self.fields@[k as int].position));
                return false;
            }
            assert forall|i: int, j: int| 0 <= i < j < k + 1 implies (
            #[trigger] self.fields@[i]).position < (#[trigger] self.fields@[j]).position by {
                if j == k && i < k - 1 {
                    assert(self.fields@[i].position < self.fields@[k - 1].position);
                }
            }
            k += 1;
        }
        true
    }

    /// The label of a variant.
    pub fn label(&self, variant: usize) -> (r: &str)
        requires
            variant < self.fields@.len(),
        ensures
            r@ == self.fields@[variant as int].label@,
    {
        self.fields[variant].label.as_str()
    }

    /// The variant that a label stands for.
    pub fn parse(&self, name: &str) -> (r: Result<usize, StrunemixFromError>)
        ensures
            parsed(*self, name@, r),
    {
        let mut k: usize = 0;
        while k < self.fields.len()
            invariant
                k <= self.fields@.len(),
                forall|j: int| 0 <= j < k ==> (#[trigger] self.fields@[j]).label@ != name@,
            decreases self.fields@.len() - k,
        {
            if str_eq(self.fields[k].label.as_str(), name) {
                return Ok(k);
            }
            k += 1;
        }
        Err(StrunemixFromError::NotAnEnumName(name.to_owned(), self.name_enum.clone()))
    }

    /// The data of a structure, given the values of all its fields in the
    /// order of declaration.
    pub fn to_data_array<V>(&self, instance: Vec<V>) -> (r: Vec<(usize, V)>)
        requires
            self.wf(),
            instance@.len() == self.total_fields,
        ensures
            r@ == self.data_of(instance@),
    {
        let ghost all = instance@;
        let total = self.total_fields;
        let mut rest = turned(instance);
        let mut out: Vec<(usize, V)> = Vec::new();
        let mut p: usize = 0;
        let mut k: usize = 0;
        while p < total
            invariant
                self.wf(),
                total == self.total_fields,
                all.len() == total,
                p <= total,
                rest@.len() == total - p,
                forall|i: int| 0 <= i < rest@.len() ==> #[trigger] rest@[i] == all[total - 1 - i],
                k <= self.fields@.len(),
                forall|j: int| 0 <= j < k ==> (#[trigger] self.fields@[j]).position < p,
                forall|j: int|
                    k <= j < self.fields@.len() ==> (#[trigger] self.fields@[j]).position >= p,
                out@.len() == k,
                forall|j: int| 0 <= j < k ==> #[trigger] out@[j] == self.data_of(all)[j],
            decreases total - p,
        {
            let value = rest.pop().unwrap();
            if k < self.fields.len() && self.fields[k].position == p {
                out.push((k, value));
                k += 1;
            }
            p += 1;
        }
        proof {
            if k < self.fields@.len() {
                assert(self.fields@[k as int].position >= total);
            }
            assert(out@ =~= self.data_of(all));
        }
        out
    }

    /// The values of all the fields of the structure that is made of `data`,
    /// in the order of declaration. The skipped fields take their values
    /// from `default`, which holds a value for every field.
    pub fn from_data_array<V>(&self, data: Vec<(usize, V)>, default: Option<Vec<V>>) -> (r: Result<
        Vec<V>,
        StrunemixFromError,
    >)
        requires
            self.wf(),
            self.reconstruction != Reconstruction::Absent,
            data@.len() == self.fields_count,
            self.reconstruction == Reconstruction::WithDefault ==> default is Some,
            default matches Some(values) ==> values@.len() == self.total_fields,
        ensures
            match r {
                Ok(s) => in_order(data@) && s@ == self.rebuilt(data@, values_of(default)),
                Err(e) => e == StrunemixFromError::WrongOrder && !in_order(data@),
            },
    {
        let mut c: usize = 0;
        while c < data.len()
            invariant
                c <= data@.len(),
                forall|j: int| 0 <= j < c ==> (#[trigger] data@[j]).0 == j,
            decreases data@.len() - c,
        {
            if data[c].0 != c {
                return Err(StrunemixFromError::WrongOrder);
            }
            c += 1;
        }
        let ghost given = data@;
        let ghost spare = values_of(default);
        let total = self.total_fields;
        let has_default = default.is_some();
        let mut data_rest = turned(data);
        let mut spare_rest: Vec<V> = match default {
            Some(values) => turned(values),
            None => Vec::new(),
        };
        let mut out: Vec<V> = Vec::new();
        let mut p: usize = 0;
        let mut k: usize = 0;
        while p < total
            invariant
                self.wf(),
                self.reconstruction != Reconstruction::Absent,
                self.reconstruction == Reconstruction::WithDefault ==> has_default,
                total == self.total_fields,
                given.len() == self.fields@.len(),
                has_default ==> spare.len() == total,
                p <= total,
                k <= self.fields@.len(),
                data_rest@.len() == given.len() - k,
                forall|i: int|
                    0 <= i < data_rest@.len() ==> #[trigger] data_rest@[i] == given[given.len() - 1
                        - i],
                has_default ==> spare_rest@.len() == total - p,
                has_default ==> forall|i: int|
                    0 <= i < spare_rest@.len() ==> #[trigger] spare_rest@[i] == spare[total - 1
                        - i],
                forall|j: int| 0 <= j < k ==> (#[trigger] self.fields@[j]).position < p,
                forall|j: int|
                    k <= j < self.fields@.len() ==> (#[trigger] self.fields@[j]).position >= p,
                out@.len() == p,
                forall|q: int| 0 <= q < p ==> #[trigger] out@[q] == self.rebuilt(given, spare)[q],
            decreases total - p,
        {
            let fallback: Option<V> = if has_default {
                spare_rest.pop()
            } else {
                None
            };
            if k < self.fields.len() && self.fields[k].position == p {
                proof {
                    self.lemma_places(k as int);
                }
                let (_tag, value) = data_rest.pop().unwrap();
                out.push(value);
                k += 1;
            } else {
                proof {
                    if k < self.fields@.len() {
                        self.lemma_places(k as int);
                    }
                    if k > 0 {
                        self.lemma_places(k - 1);
                    }
                    assert(self.variant_at(p as int) is None) by {
                        if self.variant_at(p as int) is Some {
                            let w = self.variant_at(p as int)->0;
                            assert(self.fields@[w].position == p);
                        }
                    }
                }
                out.push(fallback.unwrap());
            }
            p += 1;
        }
        assert(out@ =~= self.rebuilt(given, spare));
        Ok(out)
    }
}

/// Parsing the label of a variant gives that variant back, where no two
/// variants share a label.
pub proof fn lemma_parse_label(d: Derivation, k: int, r: Result<usize, StrunemixFromError>)
    requires
        d.distinct_labels(),
        0 <= k < d.fields@.len(),
        parsed(d, d.fields@[k].label@, r),
    ensures
        r matches Ok(found) && found == k,
{
}

/// The structure that is made of the data of a structure holds, in each
/// included field, what that structure held there, and in each skipped field
/// the default value, whatever the structure held there.
pub proof fn lemma_round_trip<V>(d: Derivation, instance: Seq<V>, default: Seq<V>, place: int)
    requires
        d.wf(),
        instance.len() == d.total_fields,
        0 <= place < d.total_fields,
    ensures
        in_order(d.data_of(instance)),
        d.rebuilt(d.data_of(instance), default).len() == instance.len(),
        d.variant_at(place) is Some ==> d.rebuilt(d.data_of(instance), default)[place]
            == instance[place],
        d.variant_at(place) is None ==> d.rebuilt(d.data_of(instance), default)[place]
            == default[place],
        d.reconstruction == Reconstruction::Exact ==> d.variant_at(place) is Some,
{
    if d.variant_at(place) is Some {
        let k = d.variant_at(place)->0;
        assert(d.fields@[k].position == place);
    }
    if d.reconstruction == Reconstruction::Exact {
        d.lemma_places(place);
    }
}

/// What is generated for a structure is well formed, and its labels differ
/// where the identifiers of the fields differ.
pub proof fn lemma_derived(d: Derivation, decl: StructDecl)
    requires
        derived_from(d, decl),
        decl.fields@.len() <= usize::MAX,
    ensures
        d.wf(),
        distinct_idents(decl.fields@) ==> d.distinct_labels(),
{
    lemma_included_among(decl.fields@, decl.fields@.len() as int);
    let places = included_places(decl.fields@);
    if places.len() == decl.fields@.len() {
    }
    if distinct_idents(decl.fields@) {
        assert forall|j: int, k: int|
            0 <= j < d.fields@.len() && 0 <= k < d.fields@.len() && (
            #[trigger] d.fields@[j]).label@ == (#[trigger] d.fields@[k]).label@ implies j
            == k by {
            let pj = places[j];
            let pk = places[k];
            assert(decl.fields@[pj].ident->0@ == decl.fields@[pk].ident->0@);
            assert(pj == pk);
            if j < k {
                assert(places[j] < places[k]);
            } else if k < j {
                assert(places[k] < places[j]);
            }
        }
    }
}

} // verus!
