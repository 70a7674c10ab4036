use crate::conversion::lemma_derived;
use crate::text::str_eq;
use vstd::prelude::*;
use vstd::string::StringExecFns;

verus! {

/// What kind of item a declaration declares.
#[derive(Debug, Clone, Copy, PartialEq, Eq, Structural)]
pub enum DeclKind {
    Struct,
    Enum,
    Union,
}

/// What stands behind the path of an annotation.
#[derive(Debug, PartialEq, Eq)]
pub enum AnnotationBody {
    /// Nothing: `#[path]`.
    Bare,
    /// A list in parentheses, item by item: `#[path(a, b)]`.
    List(Vec<String>),
    /// A value: `#[path = value]`.
    Value(String),
}

/// An annotation on a structure or on one of its fields.
#[derive(Debug, PartialEq, Eq)]
pub struct Annotation {
    pub path: String,
    pub body: AnnotationBody,
}

/// A field of a declaration. A field of a tuple structure has no identifier.
#[derive(Debug, PartialEq, Eq)]
pub struct FieldDecl {
    pub ident: Option<String>,
    pub ty: String,
    pub attrs: Vec<Annotation>,
}

/// The generic parameters of a declaration, as the host language writes
/// them. Each text leaves the angle brackets out and is empty where there is
/// no parameter.
#[derive(Debug, PartialEq, Eq)]
pub struct GenericsDecl {
    /// The parameters as the declaration writes them.
    pub declared: String,
    /// The parameters as the header of an impl writes them.
    pub for_impl: String,
    /// The parameters as a use of the type writes them.
    pub for_type: String,
    /// The where clause with its keyword; empty where there is none.
    pub where_clause: String,
}

/// A declaration as the parser of the host language hands it over.
#[derive(Debug, PartialEq, Eq)]
pub struct StructDecl {
    pub kind: DeclKind,
    /// The visibility as written; empty where none is written.
    pub vis: String,
    pub ident: String,
    pub generics: GenericsDecl,
    pub attrs: Vec<Annotation>,
    pub fields: Vec<FieldDecl>,
}

/// Why no enumerations can be derived from a declaration.
#[derive(Debug, Clone, Copy, PartialEq, Eq, Structural)]
pub enum DeriveError {
    /// The declaration is not a structure.
    NotAStructure,
    /// An annotation `strunemix` on a field holds something else than `skip`.
    UnknownAnnotation,
    /// No field is left once the skipped ones are taken out.
    NoFields,
}

impl DeriveError {
    /// What went wrong, in words.
    pub fn message(&self) -> (r: &'static str)
        ensures
            r@ == match self {
                DeriveError::NotAStructure => "Strunemix can only derive structures"@,
                DeriveError::UnknownAnnotation => "Unknown attribute value, only `skip` allowed."@,
                DeriveError::NoFields => "Strunemix can only derive non-empty structures"@,
            },
    {
        match self {
            DeriveError::NotAStructure => "Strunemix can only derive structures",
            DeriveError::UnknownAnnotation => "Unknown attribute value, only `skip` allowed.",
            DeriveError::NoFields => "Strunemix can only derive non-empty structures",
        }
    }
}

/// The characters of the path of the annotation on fields.
pub open spec fn field_path() -> Seq<char> {
    "strunemix"@
}

/// The characters of the one marker that the annotation on fields knows.
pub open spec fn skip_marker() -> Seq<char> {
    "skip"@
}

/// Whether every item of a list is the marker `skip`.
pub open spec fn only_skip(items: Seq<String>) -> bool {
    forall|i: int| 0 <= i < items.len() ==> (#[trigger] items[i])@ == skip_marker()
}

/// Whether an annotation marks its field as skipped: its path is
/// `strunemix` and it holds a list of nothing but `skip`.
pub open spec fn marks_skip(attr: Annotation) -> bool {
    attr.path@ == field_path() && (attr.body matches AnnotationBody::List(items) && only_skip(
        items@,
    ))
}

/// Whether an annotation `strunemix` holds something else than `skip`: a
/// value, or a list with another item.
pub open spec fn holds_unknown(attr: Annotation) -> bool {
    attr.path@ == field_path() && match attr.body {
        AnnotationBody::Bare => false,
        AnnotationBody::List(items) => !only_skip(items@),
        AnnotationBody::Value(_) => true,
    }
}

/// Whether every item of a list is the marker `skip`.
fn is_only_skip(items: &Vec<String>) -> (r: bool)
    ensures
        r == only_skip(items@),
{
    let mut i: usize = 0;
    while i < items.len()
        invariant
            i <= items@.len(),
            forall|j: int| 0 <= j < i ==> (#[trigger] items@[j])@ == skip_marker(),
        decreases items@.len() - i,
    {
        if !str_eq(items[i].as_str(), "skip") {
            return false;
        }
        i += 1;
    }
    true
}

/// Whether an annotation marks its field as skipped.
pub fn has_skip_attr(attr: &Annotation) -> (r: bool)
    ensures
        r == marks_skip(*attr),
{
    if !str_eq(attr.path.as_str(), "strunemix") {
        return false;
    }
    match &attr.body {
        AnnotationBody::List(items) => is_only_skip(items),
        _ => false,
    }
}

/// Whether an annotation `strunemix` holds something else than `skip`.
pub fn has_unknown_attr(attr: &Annotation) -> (r: bool)
    ensures
        r == holds_unknown(*attr),
{
    if !str_eq(attr.path.as_str(), "strunemix") {
        return false;
    }
    match &attr.body {
        AnnotationBody::Bare => false,
        AnnotationBody::List(items) => !is_only_skip(items),
        AnnotationBody::Value(_) => true,
    }
}

/// The characters of each string of a list.
pub open spec fn texts(items: Seq<String>) -> Seq<Seq<char>> {
    items.map_values(|s: String| s@)
}

/// The characters of each string slice of a list.
pub open spec fn slice_texts(items: Seq<&str>) -> Seq<Seq<char>> {
    items.map_values(|s: &str| s@)
}

/// Whether one of `names` is the path `path`.
pub open spec fn is_one_of(names: Seq<Seq<char>>, path: Seq<char>) -> bool {
    exists|k: int| 0 <= k < names.len() && #[trigger] names[k] == path
}

/// Whether an annotation gives a list of derives under one of `names`.
pub open spec fn gives_derives(attr: Annotation, names: Seq<Seq<char>>) -> bool {
    is_one_of(names, attr.path@) && attr.body is List
}

/// The derives that the annotations ask for under one of `names`: the list
/// of the first annotation that gives one, and `default` where none does.
pub open spec fn derive_texts(
    attrs: Seq<Annotation>,
    names: Seq<Seq<char>>,
    default: Seq<Seq<char>>,
) -> Seq<Seq<char>>
    decreases attrs.len(),
{
    if attrs.len() == 0 {
        default
    } else if gives_derives(attrs[0], names) {
        texts(attrs[0].body->List_0@)
    } else {
        derive_texts(attrs.drop_first(), names, default)
    }
}

/// Whether one of `names` is the path `path`.
fn path_is_one_of(names: &[&str], path: &str) -> (r: bool)
    ensures
        r == is_one_of(slice_texts(names@), path@),
{
    let mut k: usize = 0;
    while k < names.len()
        invariant
            k <= names@.len(),
            forall|j: int| 0 <= j < k ==> (#[trigger] names@[j])@ != path@,
        decreases names@.len() - k,
    {
        if str_eq(names[k], path) {
            assert(slice_texts(names@)[k as int] == path@);
            return true;
        }
        k += 1;
    }
    assert forall|j: int| 0 <= j < slice_texts(names@).len() implies slice_texts(names@)[j]
        != path@ by {
        assert(names@[j]@ != path@);
    }
    false
}

/// A copy of a list of strings.
fn copy_of(items: &Vec<String>) -> (r: Vec<String>)
    ensures
        r@ == items@,
{
    let mut out: Vec<String> = Vec::new();
    let mut i: usize = 0;
    while i < items.len()
        invariant
            i <= items@.len(),
            out@ == items@.subrange(0, i as int),
        decreases items@.len() - i,
    {
        out.push(items[i].clone());
        assert(out@ =~= items@.subrange(0, i + 1));
        i += 1;
    }
    assert(out@ =~= items@);
    out
}

/// The derives to stamp on a generated enumeration: the list of the first
/// annotation that gives one under one of `derive_attr_names`, and `default`
/// where none does.
pub fn get_enum_derive(attrs: &[Annotation], derive_attr_names: &[&str], default: Vec<String>) -> (r:
    Vec<String>)
    ensures
        texts(r@) == derive_texts(attrs@, slice_texts(derive_attr_names@), texts(default@)),
{
    let mut i: usize = 0;
    assert(attrs@.subrange(0, attrs@.len() as int) =~= attrs@);
    while i < attrs.len()
        invariant
            i <= attrs@.len(),
            derive_texts(attrs@, slice_texts(derive_attr_names@), texts(default@))
                == derive_texts(
                attrs@.subrange(i as int, attrs@.len() as int),
                slice_texts(derive_attr_names@),
                texts(default@),
            ),
        decreases attrs@.len() - i,
    {
        let ghost rest = attrs@.subrange(i as int, attrs@.len() as int);
        assert(rest[0] == attrs@[i as int]);
        assert(rest.drop_first() =~= attrs@.subrange(i + 1, attrs@.len() as int));
        if path_is_one_of(derive_attr_names, attrs[i].path.as_str()) {
            if let AnnotationBody::List(items) = &attrs[i].body {
                return copy_of(items);
            }
        }
        i += 1;
    }
    assert(attrs@.subrange(i as int, attrs@.len() as int).len() == 0);
    default
}

/// The name of a field in upper camel case, as `heck` writes it.
pub uninterp spec fn upper_camel_case(s: Seq<char>) -> Seq<char>;

/// `heck::ToUpperCamelCase::to_upper_camel_case` on a string slice. The
/// contract claims no more than that the result depends on the characters of
/// the slice alone: `heck` cuts them into words at what is no letter or digit
/// and at changes of case, and writes each word with a capital first letter
/// and the rest in lower case.
#[verifier::external_body]
fn to_upper_camel_case(s: &str) -> (r: String)
    ensures
        r@ == upper_camel_case(s@),
{
    heck::ToUpperCamelCase::to_upper_camel_case(s)
}

/// What the generator keeps of a field that takes part in the enumerations.
#[derive(Debug, PartialEq, Eq)]
pub struct FieldDescriptor {
    /// The field's identifier.
    pub ident: String,
    /// The field's declared type.
    pub ty: String,
    /// The field's name as a string: the text of its identifier.
    pub label: String,
    /// The identifier of the field's variant in both enumerations.
    pub variant: String,
    /// The field's place among all the fields of the declaration.
    pub position: usize,
}

/// Whether an annotation of the field marks it as skipped.
pub open spec fn skipped(f: FieldDecl) -> bool {
    exists|i: int| 0 <= i < f.attrs@.len() && marks_skip(#[trigger] f.attrs@[i])
}

/// Whether an annotation `strunemix` of the field holds something else than
/// `skip`.
pub open spec fn misannotated(f: FieldDecl) -> bool {
    exists|i: int| 0 <= i < f.attrs@.len() && holds_unknown(#[trigger] f.attrs@[i])
}

/// Whether a field takes part in the enumerations: it has an identifier and
/// is not skipped.
pub open spec fn included(f: FieldDecl) -> bool {
    f.ident is Some && !skipped(f)
}

/// The places of the included fields among the first `n` fields, in
/// ascending order.
pub open spec fn included_among(fields: Seq<FieldDecl>, n: int) -> Seq<int>
    decreases n,
{
    if n <= 0 {
        Seq::empty()
    } else if included(fields[n - 1]) {
        included_among(fields, n - 1).push(n - 1)
    } else {
        included_among(fields, n - 1)
    }
}

/// The places of the included fields, in ascending order.
pub open spec fn included_places(fields: Seq<FieldDecl>) -> Seq<int> {
    included_among(fields, fields.len() as int)
}

/// Whether `d` is the descriptor of the field `f`, which stands at `place`
/// and whose variant is called `variant`.
pub open spec fn describes(d: FieldDescriptor, f: FieldDecl, place: int, variant: Seq<char>) -> bool {
    &&& f.ident is Some
    &&& d.ident@ == f.ident->0@
    &&& d.ty@ == f.ty@
    &&& d.label@ == f.ident->0@
    &&& d.variant@ == variant
    &&& d.position == place
}

/// Whether `ds` holds the descriptors of the included fields, in the order
/// of declaration, each with its identifier in upper camel case as the
/// variant.
pub open spec fn describe_all(ds: Seq<FieldDescriptor>, fields: Seq<FieldDecl>) -> bool {
    &&& ds.len() == included_places(fields).len()
    &&& forall|k: int|
        0 <= k < ds.len() ==> describes(
            #[trigger] ds[k],
            fields[included_places(fields)[k]],
            included_places(fields)[k],
            upper_camel_case(fields[included_places(fields)[k]].ident->0@),
        )
}

/// The places that `included_among` lists are those of included fields below
/// `n`, in ascending order, and it lists each of them.
pub proof fn lemma_included_among(fields: Seq<FieldDecl>, n: int)
    requires
        0 <= n <= fields.len(),
    ensures
        included_among(fields, n).len() <= n,
        forall|k: int|
            0 <= k < included_among(fields, n).len() ==> 0 <= (#[trigger] included_among(
                fields,
                n,
            )[k]) < n && included(fields[included_among(fields, n)[k]]),
        forall|j: int, k: int|
            0 <= j < k < included_among(fields, n).len() ==> included_among(fields, n)[j]
                < included_among(fields, n)[k],
        forall|p: int|
            0 <= p < n && included(#[trigger] fields[p]) ==> included_among(fields, n).contains(p),
    decreases n,
{
    if n > 0 {
        lemma_included_among(fields, n - 1);
        let before = included_among(fields, n - 1);
        let now = included_among(fields, n);
        assert forall|p: int| 0 <= p < n && included(#[trigger] fields[p]) implies now.contains(
            p,
        ) by {
            if p < n - 1 {
                let k = choose|k: int| 0 <= k < before.len() && before[k] == p;
                assert(now[k] == p);
            } else {
                assert(now[now.len() - 1] == p);
            }
        }
    }
}

/// Whether an annotation of the field marks it as skipped.
fn is_skipped(field: &FieldDecl) -> (r: bool)
    ensures
        r == skipped(*field),
{
    let mut i: usize = 0;
    while i < field.attrs.len()
        invariant
            i <= field.attrs@.len(),
            forall|j: int| 0 <= j < i ==> !marks_skip(#[trigger] field.attrs@[j]),
        decreases field.attrs@.len() - i,
    {
        if has_skip_attr(&field.attrs[i]) {
            return true;
        }
        i += 1;
    }
    false
}

/// Whether an annotation `strunemix` of the field holds something else than
/// `skip`.
fn is_misannotated(field: &FieldDecl) -> (r: bool)
    ensures
        r == misannotated(*field),
{
    let mut i: usize = 0;
    while i < field.attrs.len()
        invariant
            i <= field.attrs@.len(),
            forall|j: int| 0 <= j < i ==> !holds_unknown(#[trigger] field.attrs@[j]),
        decreases field.attrs@.len() - i,
    {
        if has_unknown_attr(&field.attrs[i]) {
            return true;
        }
        i += 1;
    }
    false
}

/// The descriptor of the field with the identifier `ident` and the type
/// `ty`, which stands at `place` and whose variant is called `variant`.
pub fn descriptor(ident: &String, ty: &String, place: usize, variant: String) -> (r:
    FieldDescriptor)
    ensures
        r.ident@ == ident@,
        r.ty@ == ty@,
        r.label@ == ident@,
        r.variant@ == variant@,
        r.position == place,
{
    FieldDescriptor {
        ident: ident.clone(),
        ty: ty.clone(),
        label: ident.clone(),
        variant,
        position: place,
    }
}

/// The descriptors of the fields that take part in the enumerations, in the
/// order of declaration; an error where an annotation `strunemix` holds
/// something else than `skip`.
pub fn filter_fields(fields: &Vec<FieldDecl>) -> (r: Result<Vec<FieldDescriptor>, DeriveError>)
    ensures
        match r {
            Ok(ds) => describe_all(ds@, fields@) && forall|i: int|
                0 <= i < fields@.len() ==> !misannotated(#[trigger] fields@[i]),
            Err(e) => e == DeriveError::UnknownAnnotation && exists|i: int|
                0 <= i < fields@.len() && misannotated(#[trigger] fields@[i]),
        },
{
    let mut out: Vec<FieldDescriptor> = Vec::new();
    let mut i: usize = 0;
    while i < fields.len()
        invariant
            i <= fields@.len(),
            forall|j: int| 0 <= j < i ==> !misannotated(#[trigger] fields@[j]),
            out@.len() == included_among(fields@, i as int).len(),
            forall|k: int|
                0 <= k < out@.len() ==> describes(
                    #[trigger] out@[k],
                    fields@[included_among(fields@, i as int)[k]],
                    included_among(fields@, i as int)[k],
                    upper_camel_case(fields@[included_among(fields@, i as int)[k]].ident->0@),
                ),
        decreases fields@.len() - i,
    {
        let field = &fields[i];
        if is_misannotated(field) {
            return Err(DeriveError::UnknownAnnotation);
        }
        if !is_skipped(field) {
            if let Some(ident) = &field.ident {
                let variant = to_upper_camel_case(ident.as_str());
                out.push(descriptor(ident, &field.ty, i, variant));
            }
        }
        i += 1;
    }
    Ok(out)
}

/// Whether the structure can be made again from an array of its data, and
/// how.
#[derive(Debug, Clone, Copy, PartialEq, Eq, Structural)]
pub enum Reconstruction {
    /// Fields are skipped and no default value was declared: the conversion
    /// from an array is not generated.
    Absent,
    /// No field is skipped: every field comes from the array.
    Exact,
    /// Fields are skipped and a default value was declared: the skipped
    /// fields come from the default value, the others from the array.
    WithDefault,
}

/// What is generated for a structure: the two enumerations, the included
/// fields and their count, and how the structure is made again.
#[derive(Debug, PartialEq, Eq)]
pub struct Derivation {
    /// The identifier of the enumeration of names.
    pub name_enum: String,
    /// The identifier of the enumeration of data.
    pub data_enum: String,
    /// The derives stamped on the enumeration of names.
    pub name_derives: Vec<String>,
    /// The derives stamped on the enumeration of data.
    pub data_derives: Vec<String>,
    /// The included fields, in the order of declaration.
    pub fields: Vec<FieldDescriptor>,
    /// The number of included fields.
    pub fields_count: usize,
    /// The number of fields of the declaration.
    pub total_fields: usize,
    /// How the structure is made again from an array of its data.
    pub reconstruction: Reconstruction,
    /// Whether the structure has generic parameters.
    pub generic: bool,
}

/// The paths under which a list of derives for the enumeration of data is
/// looked for.
pub open spec fn data_derive_paths() -> Seq<Seq<char>> {
    seq!["strunemix_derive_data"@, "strunemix_derive"@]
}

/// The paths under which a list of derives for the enumeration of names is
/// looked for.
pub open spec fn name_derive_paths() -> Seq<Seq<char>> {
    seq!["strunemix_derive_name"@, "strunemix_derive"@]
}

/// The derives of the enumeration of names where no annotation gives any.
pub open spec fn default_name_derives() -> Seq<Seq<char>> {
    seq!["Debug"@, "PartialEq"@, "Eq"@, "Clone"@, "Copy"@]
}

/// Whether the annotations declare that the structure has a default value.
pub open spec fn declares_default(attrs: Seq<Annotation>) -> bool {
    exists|i: int| 0 <= i < attrs.len() && (#[trigger] attrs[i]).path@ == "strunemix_default"@
}

/// How the structure is made again: exactly where no field was left out, and
/// else with the default value, if one was declared.
pub open spec fn reconstruction_of(left_out: bool, has_default: bool) -> Reconstruction {
    if !left_out {
        Reconstruction::Exact
    } else if has_default {
        Reconstruction::WithDefault
    } else {
        Reconstruction::Absent
    }
}

/// Whether `d` is what is generated for the structure `decl`.
pub open spec fn derived_from(d: Derivation, decl: StructDecl) -> bool {
    &&& d.name_enum@ == decl.ident@ + "AttrName"@
    &&& d.data_enum@ == decl.ident@ + "AttrData"@
    &&& texts(d.name_derives@) == derive_texts(
        decl.attrs@,
        name_derive_paths(),
        default_name_derives(),
    )
    &&& texts(d.data_derives@) == derive_texts(decl.attrs@, data_derive_paths(), Seq::empty())
    &&& describe_all(d.fields@, decl.fields@)
    &&& d.fields_count == included_places(decl.fields@).len()
    &&& d.total_fields == decl.fields@.len()
    &&& d.reconstruction == reconstruction_of(
        included_places(decl.fields@).len() != decl.fields@.len(),
        declares_default(decl.attrs@),
    )
    &&& d.generic == (decl.generics.declared@.len() > 0)
}

/// Whether an annotation `strunemix` of some field holds something else than
/// `skip`.
pub open spec fn any_misannotated(fields: Seq<FieldDecl>) -> bool {
    exists|i: int| 0 <= i < fields.len() && misannotated(#[trigger] fields[i])
}

/// Whether the annotations declare that the structure has a default value.
fn has_default_attr(attrs: &Vec<Annotation>) -> (r: bool)
    ensures
        r == declares_default(attrs@),
{
    let mut i: usize = 0;
    while i < attrs.len()
        invariant
            i <= attrs@.len(),
            forall|j: int| 0 <= j < i ==> (#[trigger] attrs@[j]).path@ != "strunemix_default"@,
        decreases attrs@.len() - i,
    {
        if str_eq(attrs[i].path.as_str(), "strunemix_default") {
            return true;
        }
        i += 1;
    }
    false
}

/// The derives of the enumeration of names where no annotation gives any.
fn standard_name_derives() -> (r: Vec<String>)
    ensures
        texts(r@) == default_name_derives(),
{
    let mut out: Vec<String> = Vec::new();
    out.push(String::from_str("Debug"));
    out.push(String::from_str("PartialEq"));
    out.push(String::from_str("Eq"));
    out.push(String::from_str("Clone"));
    out.push(String::from_str("Copy"));
    assert(texts(out@) =~= default_name_derives());
    out
}

/// What is generated for a declaration: the enumeration of the names of its
/// fields and the enumeration of their data, with the fields that take part
/// and the way back from an array to the structure. Nothing is generated for
/// a declaration that is no structure, for an annotation `strunemix` that
/// holds something else than `skip`, or where no field is left.
pub fn field_type(input: &StructDecl) -> (r: Result<Derivation, DeriveError>)
    ensures
        match r {
            Ok(d) => {
                &&& input.kind == DeclKind::Struct
                &&& !any_misannotated(input.fields@)
                &&& included_places(input.fields@).len() > 0
                &&& derived_from(d, *input)
                &&& d.wf()
            },
            Err(DeriveError::NotAStructure) => input.kind != DeclKind::Struct,
            Err(DeriveError::UnknownAnnotation) => input.kind == DeclKind::Struct
                && any_misannotated(input.fields@),
            Err(DeriveError::NoFields) => input.kind == DeclKind::Struct && !any_misannotated(
                input.fields@,
            ) && included_places(input.fields@).len() == 0,
        },
{
    match input.kind {
        DeclKind::Struct => {},
        _ => {
            return Err(DeriveError::NotAStructure);
        },
    }
    let name_enum = input.ident.clone().concat("AttrName");
    let data_enum = input.ident.clone().concat("AttrData");
    let data_paths: [&str; 2] = ["strunemix_derive_data", "strunemix_derive"];
    let name_paths: [&str; 2] = ["strunemix_derive_name", "strunemix_derive"];
    let data_derives = get_enum_derive(
        input.attrs.as_slice(),
        data_paths.as_slice(),
        Vec::new(),
    );
    let name_derives = get_enum_derive(
        input.attrs.as_slice(),
        name_paths.as_slice(),
        standard_name_derives(),
    );
    proof {
        assert(slice_texts(data_paths@) =~= data_derive_paths());
        assert(slice_texts(name_paths@) =~= name_derive_paths());
        assert(texts(Seq::<String>::empty()) =~= Seq::<Seq<char>>::empty());
    }
    let fields = match filter_fields(&input.fields) {
        Ok(fields) => fields,
        Err(e) => {
            return Err(e);
        },
    };
    let has_default = has_default_attr(&input.attrs);
    let left_out = input.fields.len() != fields.len();
    if fields.len() == 0 {
        return Err(DeriveError::NoFields);
    }
    let reconstruction = if !left_out {
        Reconstruction::Exact
    } else if has_default {
        Reconstruction::WithDefault
    } else {
        Reconstruction::Absent
    };
    let fields_count = fields.len();
    let d = Derivation {
        name_enum,
        data_enum,
        name_derives,
        data_derives,
        fields,
        fields_count,
        total_fields: input.fields.len(),
        reconstruction,
        generic: !input.generics.declared.as_str().is_empty(),
    };
    proof {
        lemma_derived(d, *input);
    }
    Ok(d)
}

} // verus!
