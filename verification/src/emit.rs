use crate::generator::{
    any_misannotated, derived_from, field_type, included_places, texts, DeclKind, Derivation,
    DeriveError, Reconstruction, StructDecl,
};
use crate::text::{decimal, decimal_text};
use vstd::prelude::*;
use vstd::string::StringExecFns;

verus! {

/// The lines that are written once for each included field.
#[derive(Debug, Clone, Copy, PartialEq, Eq, Structural)]
pub enum Row {
    /// A variant of the enumeration of names.
    Variant,
    /// A variant of the enumeration of data, with the field's type.
    DataVariant,
    /// The arm that gives a name its label.
    LabelArm,
    /// The arm that gives a label its name.
    ParseArm,
    /// A name as an item of an array.
    NameItem,
    /// The field's identifier in a pattern.
    Ident,
    /// The field of the structure that is made again from its data.
    Part,
    /// The field's value in its variant, as an item of an array.
    DataItem,
    /// The arm that gives data their name.
    Projection,
}

/// The line of the kind `kind` for the `k`-th included field.
pub open spec fn row_text(d: Derivation, kind: Row, k: int) -> Seq<char> {
    let f = d.fields@[k];
    match kind {
        Row::Variant => "    "@ + f.variant@ + ","@,
        Row::DataVariant => "    "@ + f.variant@ + "("@ + f.ty@ + "),"@,
        Row::LabelArm => "            "@ + d.name_enum@ + "::"@ + f.variant@ + " => \""@ + f.label@
            + "\","@,
        Row::ParseArm => "            \""@ + f.label@ + "\" => Ok("@ + d.name_enum@ + "::"@
            + f.variant@ + "),"@,
        Row::NameItem => "            "@ + d.name_enum@ + "::"@ + f.variant@ + ","@,
        Row::Ident => "            "@ + f.ident@ + ","@,
        Row::Part => "            "@ + f.ident@ + ": match "@ + f.ident@ + " { "@ + d.data_enum@
            + "::"@ + f.variant@
            + "(value) => value, _ => return Err(::strunemix::error::StrunemixFromError::WrongOrder) },"@,
        Row::DataItem => "            "@ + d.data_enum@ + "::"@ + f.variant@ + "("@ + f.ident@
            + "),"@,
        Row::Projection => "            "@ + d.data_enum@ + "::"@ + f.variant@ + "(_) => "@
            + d.name_enum@ + "::"@ + f.variant@ + ","@,
    }
}

/// The lines of the kind `kind` for all the included fields, in the order of
/// declaration.
pub open spec fn rows_text(d: Derivation, kind: Row) -> Seq<Seq<char>> {
    Seq::new(d.fields@.len(), |k: int| row_text(d, kind, k))
}

/// The line of the kind `kind` for the `k`-th included field.
pub fn row(d: &Derivation, kind: Row, k: usize) -> (r: String)
    requires
        k < d.fields@.len(),
    ensures
        r@ == row_text(*d, kind, k as int),
{
    let f = &d.fields[k];
    match kind {
        Row::Variant => {
            let mut s = String::from_str("    ");
            s.append(f.variant.as_str());
            s.append(",");
            s
        },
        Row::DataVariant => {
            let mut s = String::from_str("    ");
            s.append(f.variant.as_str());
            s.append("(");
            s.append(f.ty.as_str());
            s.append("),");
            s
        },
        Row::LabelArm => {
            let mut s = String::from_str("            ");
            s.append(d.name_enum.as_str());
            s.append("::");
            s.append(f.variant.as_str());
            s.append(" => \"");
            s.append(f.label.as_str());
            s.append("\",");
            s
        },
        Row::ParseArm => {
            let mut s = String::from_str("            \"");
            s.append(f.label.as_str());
            s.append("\" => Ok(");
            s.append(d.name_enum.as_str());
            s.append("::");
            s.append(f.variant.as_str());
            s.append("),");
            s
        },
        Row::NameItem => {
            let mut s = String::from_str("            ");
            s.append(d.name_enum.as_str());
            s.append("::");
            s.append(f.variant.as_str());
            s.append(",");
            s
        },
        Row::Ident => {
            let mut s = String::from_str("            ");
            s.append(f.ident.as_str());
            s.append(",");
            s
        },
        Row::Part => {
            let mut s = String::from_str("            ");
            s.append(f.ident.as_str());
            s.append(": match ");
            s.append(f.ident.as_str());
            s.append(" { ");
            s.append(d.data_enum.as_str());
            s.append("::");
            s.append(f.variant.as_str());
            s.append(
                "(value) => value, _ => return Err(::strunemix::error::StrunemixFromError::WrongOrder) },",
            );
            s
        },
        Row::DataItem => {
            let mut s = String::from_str("            ");
            s.append(d.data_enum.as_str());
            s.append("::");
            s.append(f.variant.as_str());
            s.append("(");
            s.append(f.ident.as_str());
            s.append("),");
            s
        },
        Row::Projection => {
            let mut s = String::from_str("            ");
            s.append(d.data_enum.as_str());
            s.append("::");
            s.append(f.variant.as_str());
            s.append("(_) => ");
            s.append(d.name_enum.as_str());
            s.append("::");
            s.append(f.variant.as_str());
            s.append(",");
            s
        },
    }
}

/// Add a line to the lines written so far.
fn put(out: &mut Vec<String>, line: String)
    ensures
        texts(final(out)@) == texts(old(out)@).push(line@),
{
    out.push(line);
    assert(texts(out@) =~= texts(old(out)@).push(line@));
}

/// Add a line that is written as it stands.
fn put_str(out: &mut Vec<String>, line: &str)
    ensures
        texts(final(out)@) == texts(old(out)@).push(line@),
{
    put(out, String::from_str(line));
}

/// Add the lines of the kind `kind` for all the included fields.
fn put_rows(out: &mut Vec<String>, d: &Derivation, kind: Row)
    ensures
        texts(final(out)@) == texts(old(out)@) + rows_text(*d, kind),
{
    let ghost head = texts(out@);
    let mut k: usize = 0;
    while k < d.fields.len()
        invariant
            k <= d.fields@.len(),
            texts(out@) == head + Seq::new(k as nat, |i: int| row_text(*d, kind, i)),
        decreases d.fields@.len() - k,
    {
        let ghost before = texts(out@);
        put(out, row(d, kind, k));
        assert(texts(out@) =~= head + Seq::new((k + 1) as nat, |i: int| row_text(*d, kind, i)));
        k += 1;
    }
    assert(texts(out@) =~= head + rows_text(*d, kind));
}

/// Generic parameters in their angle brackets; nothing where there are none.
pub open spec fn angle(params: Seq<char>) -> Seq<char> {
    if params.len() == 0 {
        Seq::empty()
    } else {
        "<"@ + params + ">"@
    }
}

/// Generic parameters in their angle brackets; nothing where there are none.
fn angled(params: &str) -> (r: String)
    ensures
        r@ == angle(params@),
{
    if params.is_empty() {
        let r = String::from_str("");
        proof {
            reveal_strlit("");
        }
        assert(r@ =~= Seq::<char>::empty());
        r
    } else {
        let mut s = String::from_str("<");
        s.append(params);
        s.append(">");
        s
    }
}

/// The items of a list with `, ` between them.
pub open spec fn joined(items: Seq<Seq<char>>) -> Seq<char>
    decreases items.len(),
{
    if items.len() == 0 {
        Seq::empty()
    } else if items.len() == 1 {
        items[0]
    } else {
        joined(items.drop_last()) + ", "@ + items.last()
    }
}

/// The attribute that stamps derives on an enumeration; no line where there
/// is no derive.
pub open spec fn derive_lines(derives: Seq<Seq<char>>) -> Seq<Seq<char>> {
    if derives.len() == 0 {
        Seq::empty()
    } else {
        seq!["#[derive("@ + joined(derives) + ")]"@]
    }
}

/// Add the attribute that stamps derives on an enumeration.
fn put_derives(out: &mut Vec<String>, derives: &Vec<String>)
    ensures
        texts(final(out)@) == texts(old(out)@) + derive_lines(texts(derives@)),
{
    if derives.len() == 0 {
        assert(texts(out@) =~= texts(out@) + derive_lines(texts(derives@)));
        return ;
    }
    let mut list = String::from_str(derives[0].as_str());
    let mut i: usize = 1;
    assert(texts(derives@).subrange(0, 1) =~= seq![derives@[0]@]);
    while i < derives.len()
        invariant
            1 <= i <= derives@.len(),
            list@ == joined(texts(derives@).subrange(0, i as int)),
        decreases derives@.len() - i,
    {
        let ghost upto = texts(derives@).subrange(0, i + 1);
        assert(upto.drop_last() =~= texts(derives@).subrange(0, i as int));
        assert(upto.last() == derives@[i as int]@);
        list.append(", ");
        list.append(derives[i].as_str());
        i += 1;
    }
    assert(texts(derives@).subrange(0, i as int) =~= texts(derives@));
    let mut line = String::from_str("#[derive(");
    line.append(list.as_str());
    line.append(")]");
    let ghost head = texts(out@);
    put(out, line);
    assert(texts(out@) =~= head + derive_lines(texts(derives@)));
}

/// The enumeration of names: its derives, and one unit variant for each
/// included field.
pub open spec fn name_enum_text(decl: StructDecl, d: Derivation) -> Seq<Seq<char>> {
    derive_lines(texts(d.name_derives@)) + seq![decl.vis@ + " enum "@ + d.name_enum@ + " {"@]
        + rows_text(d, Row::Variant) + seq!["}"@]
}

/// The enumeration of names.
pub fn name_enum(out: &mut Vec<String>, decl: &StructDecl, d: &Derivation)
    ensures
        texts(final(out)@) == texts(old(out)@) + name_enum_text(*decl, *d),
{
    let ghost head = texts(out@);
    put_derives(out, &d.name_derives);
    let mut line = String::from_str(decl.vis.as_str());
    line.append(" enum ");
    line.append(d.name_enum.as_str());
    line.append(" {");
    put(out, line);
    put_rows(out, d, Row::Variant);
    put_str(out, "}");
    assert(texts(out@) =~= head + name_enum_text(*decl, *d));
}

/// What the enumeration of names does: it gives each name its label, and
/// each label its name, with an error for a string that is no label.
pub open spec fn name_impl_text(d: Derivation) -> Seq<Seq<char>> {
    seq![
        "impl ::strunemix::name::StrunemixName for "@ + d.name_enum@ + " {"@,
        "    fn get_str(&self) -> &'static str {"@,
        "        match *self {"@,
    ] + rows_text(d, Row::LabelArm) + seq![
        "        }"@,
        "    }"@,
        "    fn from_str(name: &str) -> Result<Self, ::strunemix::error::StrunemixFromError> {"@,
        "        match name {"@,
    ] + rows_text(d, Row::ParseArm) + seq![
        "            _ => Err(::strunemix::error::StrunemixFromError::NotAnEnumName(name.to_string(), \""@
            + d.name_enum@ + "\".to_string())),"@,
        "        }"@,
        "    }"@,
        "}"@,
        "impl ::std::str::FromStr for "@ + d.name_enum@ + " {"@,
        "    type Err = ::strunemix::error::StrunemixFromError;"@,
        "    fn from_str(name: &str) -> Result<Self, Self::Err> {"@,
        "        <"@ + d.name_enum@ + " as ::strunemix::name::StrunemixName>::from_str(name)"@,
        "    }"@,
        "}"@,
    ]
}

/// What the enumeration of names does.
pub fn name_impl(out: &mut Vec<String>, d: &Derivation)
    ensures
        texts(final(out)@) == texts(old(out)@) + name_impl_text(*d),
{
    let ghost head = texts(out@);
    let mut line = String::from_str("impl ::strunemix::name::StrunemixName for ");
    line.append(d.name_enum.as_str());
    line.append(" {");
    put(out, line);
    put_str(out, "    fn get_str(&self) -> &'static str {");
    put_str(out, "        match *self {");
    put_rows(out, d, Row::LabelArm);
    put_str(out, "        }");
    put_str(out, "    }");
    put_str(
        out,
        "    fn from_str(name: &str) -> Result<Self, ::strunemix::error::StrunemixFromError> {",
    );
    put_str(out, "        match name {");
    put_rows(out, d, Row::ParseArm);
    let mut other = String::from_str(
        "            _ => Err(::strunemix::error::StrunemixFromError::NotAnEnumName(name.to_string(), \"",
    );
    other.append(d.name_enum.as_str());
    other.append("\".to_string())),");
    put(out, other);
    put_str(out, "        }");
    put_str(out, "    }");
    put_str(out, "}");
    let mut parse = String::from_str("impl ::std::str::FromStr for ");
    parse.append(d.name_enum.as_str());
    parse.append(" {");
    put(out, parse);
    put_str(out, "    type Err = ::strunemix::error::StrunemixFromError;");
    put_str(out, "    fn from_str(name: &str) -> Result<Self, Self::Err> {");
    let mut call = String::from_str("        <");
    call.append(d.name_enum.as_str());
    call.append(" as ::strunemix::name::StrunemixName>::from_str(name)");
    put(out, call);
    put_str(out, "    }");
    put_str(out, "}");
    assert(texts(out@) =~= head + name_impl_text(*d));
}

/// The structure with its generic arguments.
pub open spec fn self_type_text(decl: StructDecl) -> Seq<char> {
    decl.ident@ + angle(decl.generics.for_type@)
}

/// The enumeration of data with its generic arguments.
pub open spec fn data_type_text(decl: StructDecl, d: Derivation) -> Seq<char> {
    d.data_enum@ + angle(decl.generics.for_type@)
}

/// The keyword `impl` with the generic parameters of the structure.
pub open spec fn impl_text(decl: StructDecl) -> Seq<char> {
    "impl"@ + angle(decl.generics.for_impl@)
}

/// The number of included fields in decimal digits.
pub open spec fn count_text(d: Derivation) -> Seq<char> {
    decimal_text(d.fields@.len())
}

/// The type of the array of the data.
pub open spec fn data_array_text(decl: StructDecl, d: Derivation) -> Seq<char> {
    "["@ + data_type_text(decl, d) + "; "@ + count_text(d) + "]"@
}

/// The type of the array of the names.
pub open spec fn name_array_text(d: Derivation) -> Seq<char> {
    "["@ + d.name_enum@ + "; "@ + count_text(d) + "]"@
}

/// The generic parameters of an impl that also takes the lifetime of a
/// reference to the structure.
pub open spec fn with_lifetime(params: Seq<char>) -> Seq<char> {
    if params.len() == 0 {
        "<'field_name_from_lifetime__>"@
    } else {
        "<'field_name_from_lifetime__, "@ + params + ">"@
    }
}

fn self_type(decl: &StructDecl) -> (r: String)
    ensures
        r@ == self_type_text(*decl),
{
    let mut s = String::from_str(decl.ident.as_str());
    s.append(angled(decl.generics.for_type.as_str()).as_str());
    s
}

fn data_type(decl: &StructDecl, d: &Derivation) -> (r: String)
    ensures
        r@ == data_type_text(*decl, *d),
{
    let mut s = String::from_str(d.data_enum.as_str());
    s.append(angled(decl.generics.for_type.as_str()).as_str());
    s
}

fn impl_head(decl: &StructDecl) -> (r: String)
    ensures
        r@ == impl_text(*decl),
{
    let mut s = String::from_str("impl");
    s.append(angled(decl.generics.for_impl.as_str()).as_str());
    s
}

fn data_array(decl: &StructDecl, d: &Derivation) -> (r: String)
    ensures
        r@ == data_array_text(*decl, *d),
{
    let mut s = String::from_str("[");
    s.append(data_type(decl, d).as_str());
    s.append("; ");
    s.append(decimal(d.fields.len()).as_str());
    s.append("]");
    s
}

fn name_array(d: &Derivation) -> (r: String)
    ensures
        r@ == name_array_text(*d),
{
    let mut s = String::from_str("[");
    s.append(d.name_enum.as_str());
    s.append("; ");
    s.append(decimal(d.fields.len()).as_str());
    s.append("]");
    s
}

fn lifetime_generics(params: &str) -> (r: String)
    ensures
        r@ == with_lifetime(params@),
{
    if params.is_empty() {
        String::from_str("<'field_name_from_lifetime__>")
    } else {
        let mut s = String::from_str("<'field_name_from_lifetime__, ");
        s.append(params);
        s.append(">");
        s
    }
}

/// The array of all the names, made from a reference to the structure.
pub open spec fn names_from_ref_text(decl: StructDecl, d: Derivation) -> Seq<Seq<char>> {
    seq![
        "impl"@ + with_lifetime(decl.generics.for_impl@) + " From<&'field_name_from_lifetime__ "@
            + self_type_text(decl) + "> for "@ + name_array_text(d) + " "@
            + decl.generics.where_clause@ + " {"@,
        "    fn from(_source: &'field_name_from_lifetime__ "@ + self_type_text(decl)
            + ") -> Self {"@,
        "        ["@,
    ] + rows_text(d, Row::NameItem) + seq!["        ]"@, "    }"@, "}"@]
}

/// The array of all the names, made from a reference to the structure.
pub fn names_from_ref(out: &mut Vec<String>, decl: &StructDecl, d: &Derivation)
    ensures
        texts(final(out)@) == texts(old(out)@) + names_from_ref_text(*decl, *d),
{
    let ghost head = texts(out@);
    let mut line = String::from_str("impl");
    line.append(lifetime_generics(decl.generics.for_impl.as_str()).as_str());
    line.append(" From<&'field_name_from_lifetime__ ");
    line.append(self_type(decl).as_str());
    line.append("> for ");
    line.append(name_array(d).as_str());
    line.append(" ");
    line.append(decl.generics.where_clause.as_str());
    line.append(" {");
    put(out, line);
    let mut from = String::from_str("    fn from(_source: &'field_name_from_lifetime__ ");
    from.append(self_type(decl).as_str());
    from.append(") -> Self {");
    put(out, from);
    put_str(out, "        [");
    put_rows(out, d, Row::NameItem);
    put_str(out, "        ]");
    put_str(out, "    }");
    put_str(out, "}");
    assert(texts(out@) =~= head + names_from_ref_text(*decl, *d));
}

/// The enumeration of data: its derives, and one variant for each included
/// field, which carries the field's type.
pub open spec fn data_enum_text(decl: StructDecl, d: Derivation) -> Seq<Seq<char>> {
    derive_lines(texts(d.data_derives@)) + seq![
        decl.vis@ + " enum "@ + d.data_enum@ + angle(decl.generics.declared@) + " "@
            + decl.generics.where_clause@ + " {"@,
    ] + rows_text(d, Row::DataVariant) + seq!["}"@]
}

/// The enumeration of data.
pub fn data_enum(out: &mut Vec<String>, decl: &StructDecl, d: &Derivation)
    ensures
        texts(final(out)@) == texts(old(out)@) + data_enum_text(*decl, *d),
{
    let ghost head = texts(out@);
    put_derives(out, &d.data_derives);
    let mut line = String::from_str(decl.vis.as_str());
    line.append(" enum ");
    line.append(d.data_enum.as_str());
    line.append(angled(decl.generics.declared.as_str()).as_str());
    line.append(" ");
    line.append(decl.generics.where_clause.as_str());
    line.append(" {");
    put(out, line);
    put_rows(out, d, Row::DataVariant);
    put_str(out, "}");
    assert(texts(out@) =~= head + data_enum_text(*decl, *d));
}

/// The line that fills the skipped fields from the default value; no line
/// where every field comes from the array.
pub open spec fn default_lines(how: Reconstruction) -> Seq<Seq<char>> {
    if how == Reconstruction::WithDefault {
        seq!["            ..Default::default()"@]
    } else {
        Seq::empty()
    }
}

/// The way back from the array of the data to the structure: each included
/// field from the item at its place, which must be of the field's variant,
/// and the skipped fields from the default value. Nothing is written where
/// fields are skipped and no default value was declared.
pub open spec fn rebuild_text(decl: StructDecl, d: Derivation) -> Seq<Seq<char>> {
    if d.reconstruction == Reconstruction::Absent {
        Seq::empty()
    } else {
        seq![
            impl_text(decl) + " TryFrom<"@ + data_array_text(decl, d) + "> for "@ + self_type_text(
                decl,
            ) + " "@ + decl.generics.where_clause@ + " {"@,
            "    type Error = ::strunemix::error::StrunemixFromError;"@,
            "    fn try_from(source: "@ + data_array_text(decl, d)
                + ") -> Result<Self, Self::Error> {"@,
            "        let ["@,
        ] + rows_text(d, Row::Ident) + seq![
            "        ] = source;"@,
            "        Ok("@ + decl.ident@ + " {"@,
        ] + rows_text(d, Row::Part) + default_lines(d.reconstruction) + seq![
            "        })"@,
            "    }"@,
            "}"@,
        ]
    }
}

/// The way back from the array of the data to the structure.
pub fn rebuild(out: &mut Vec<String>, decl: &StructDecl, d: &Derivation)
    ensures
        texts(final(out)@) == texts(old(out)@) + rebuild_text(*decl, *d),
{
    let ghost head = texts(out@);
    match d.reconstruction {
        Reconstruction::Absent => {
            assert(texts(out@) =~= head + rebuild_text(*decl, *d));
            return ;
        },
        _ => {},
    }
    let mut line = impl_head(decl);
    line.append(" TryFrom<");
    line.append(data_array(decl, d).as_str());
    line.append("> for ");
    line.append(self_type(decl).as_str());
    line.append(" ");
    line.append(decl.generics.where_clause.as_str());
    line.append(" {");
    put(out, line);
    put_str(out, "    type Error = ::strunemix::error::StrunemixFromError;");
    let mut from = String::from_str("    fn try_from(source: ");
    from.append(data_array(decl, d).as_str());
    from.append(") -> Result<Self, Self::Error> {");
    put(out, from);
    put_str(out, "        let [");
    put_rows(out, d, Row::Ident);
    put_str(out, "        ] = source;");
    let mut make = String::from_str("        Ok(");
    make.append(decl.ident.as_str());
    make.append(" {");
    put(out, make);
    put_rows(out, d, Row::Part);
    match d.reconstruction {
        Reconstruction::WithDefault => {
            put_str(out, "            ..Default::default()");
        },
        _ => {},
    }
    put_str(out, "        })");
    put_str(out, "    }");
    put_str(out, "}");
    assert(texts(out@) =~= head + rebuild_text(*decl, *d));
}

/// The array of the data made from the structure, and the name that data
/// belong to.
pub open spec fn converters_text(decl: StructDecl, d: Derivation) -> Seq<Seq<char>> {
    seq![
        impl_text(decl) + " From<"@ + self_type_text(decl) + "> for "@ + data_array_text(decl, d)
            + " "@ + decl.generics.where_clause@ + " {"@,
        "    fn from(source: "@ + self_type_text(decl) + ") -> Self {"@,
        "        let "@ + decl.ident@ + " {"@,
    ] + rows_text(d, Row::Ident) + seq!["            .."@, "        } = source;"@, "        ["@]
        + rows_text(d, Row::DataItem) + seq![
        "        ]"@,
        "    }"@,
        "}"@,
        impl_text(decl) + " From<"@ + data_type_text(decl, d) + "> for "@ + d.name_enum@ + " "@
            + decl.generics.where_clause@ + " {"@,
        "    fn from(source: "@ + data_type_text(decl, d) + ") -> "@ + d.name_enum@ + " {"@,
        "        match source {"@,
    ] + rows_text(d, Row::Projection) + seq!["        }"@, "    }"@, "}"@]
}

/// The array of the data made from the structure, and the name that data
/// belong to.
pub fn converters(out: &mut Vec<String>, decl: &StructDecl, d: &Derivation)
    ensures
        texts(final(out)@) == texts(old(out)@) + converters_text(*decl, *d),
{
    let ghost head = texts(out@);
    let mut line = impl_head(decl);
    line.append(" From<");
    line.append(self_type(decl).as_str());
    line.append("> for ");
    line.append(data_array(decl, d).as_str());
    line.append(" ");
    line.append(decl.generics.where_clause.as_str());
    line.append(" {");
    put(out, line);
    let mut from = String::from_str("    fn from(source: ");
    from.append(self_type(decl).as_str());
    from.append(") -> Self {");
    put(out, from);
    let mut take = String::from_str("        let ");
    take.append(decl.ident.as_str());
    take.append(" {");
    put(out, take);
    put_rows(out, d, Row::Ident);
    put_str(out, "            ..");
    put_str(out, "        } = source;");
    put_str(out, "        [");
    put_rows(out, d, Row::DataItem);
    put_str(out, "        ]");
    put_str(out, "    }");
    put_str(out, "}");
    let mut project = impl_head(decl);
    project.append(" From<");
    project.append(data_type(decl, d).as_str());
    project.append("> for ");
    project.append(d.name_enum.as_str());
    project.append(" ");
    project.append(decl.generics.where_clause.as_str());
    project.append(" {");
    put(out, project);
    let mut name = String::from_str("    fn from(source: ");
    name.append(data_type(decl, d).as_str());
    name.append(") -> ");
    name.append(d.name_enum.as_str());
    name.append(" {");
    put(out, name);
    put_str(out, "        match source {");
    put_rows(out, d, Row::Projection);
    put_str(out, "        }");
    put_str(out, "    }");
    put_str(out, "}");
    assert(texts(out@) =~= head + converters_text(*decl, *d));
}

/// The visibility of the constant that holds the count: that of the
/// structure, and `pub` where the structure is generic.
pub open spec fn count_vis(decl: StructDecl, d: Derivation) -> Seq<char> {
    if d.generic {
        "pub"@
    } else {
        decl.vis@
    }
}

/// The constant that holds the number of included fields.
pub open spec fn count_const_text(decl: StructDecl, d: Derivation) -> Seq<Seq<char>> {
    seq![
        impl_text(decl) + " "@ + self_type_text(decl) + " "@ + decl.generics.where_clause@
            + " {"@,
        "    "@ + count_vis(decl, d) + " const FIELDS_COUNT: usize = "@ + count_text(d) + ";"@,
        "}"@,
    ]
}

/// The constant that holds the number of included fields.
pub fn count_const(out: &mut Vec<String>, decl: &StructDecl, d: &Derivation)
    ensures
        texts(final(out)@) == texts(old(out)@) + count_const_text(*decl, *d),
{
    let ghost head = texts(out@);
    let mut line = impl_head(decl);
    line.append(" ");
    line.append(self_type(decl).as_str());
    line.append(" ");
    line.append(decl.generics.where_clause.as_str());
    line.append(" {");
    put(out, line);
    let mut constant = String::from_str("    ");
    if d.generic {
        constant.append("pub");
    } else {
        constant.append(decl.vis.as_str());
    }
    constant.append(" const FIELDS_COUNT: usize = ");
    constant.append(decimal(d.fields.len()).as_str());
    constant.append(";");
    put(out, constant);
    put_str(out, "}");
    assert(texts(out@) =~= head + count_const_text(*decl, *d));
}

/// The impls that tie the structure to its two enumerations.
pub open spec fn traits_text(decl: StructDecl, d: Derivation) -> Seq<Seq<char>> {
    seq![
        impl_text(decl) + " ::strunemix::data::StrunemixData<"@ + d.name_enum@ + "> for "@
            + data_type_text(decl, d) + " "@ + decl.generics.where_clause@ + " {}"@,
        impl_text(decl) + " ::strunemix::top::StrunemixTrait<"@ + d.name_enum@ + ", "@
            + data_type_text(decl, d) + ", "@ + count_text(d) + "> for "@ + self_type_text(decl)
            + " "@ + decl.generics.where_clause@ + " {"@,
        "    fn to_attr_data_array(self) -> "@ + data_array_text(decl, d) + " {"@,
        "        let "@ + decl.ident@ + " {"@,
    ] + rows_text(d, Row::Ident) + seq!["            .."@, "        } = self;"@, "        ["@]
        + rows_text(d, Row::DataItem) + seq![
        "        ]"@,
        "    }"@,
        "    fn as_attr_name_array() -> "@ + name_array_text(d) + " {"@,
        "        ["@,
    ] + rows_text(d, Row::NameItem) + seq!["        ]"@, "    }"@, "}"@]
}

/// The impls that tie the structure to its two enumerations.
pub fn traits(out: &mut Vec<String>, decl: &StructDecl, d: &Derivation)
    ensures
        texts(final(out)@) == texts(old(out)@) + traits_text(*decl, *d),
{
    let ghost head = texts(out@);
    let mut data = impl_head(decl);
    data.append(" ::strunemix::data::StrunemixData<");
    data.append(d.name_enum.as_str());
    data.append("> for ");
    data.append(data_type(decl, d).as_str());
    data.append(" ");
    data.append(decl.generics.where_clause.as_str());
    data.append(" {}");
    put(out, data);
    let mut line = impl_head(decl);
    line.append(" ::strunemix::top::StrunemixTrait<");
    line.append(d.name_enum.as_str());
    line.append(", ");
    line.append(data_type(decl, d).as_str());
    line.append(", ");
    line.append(decimal(d.fields.len()).as_str());
    line.append("> for ");
    line.append(self_type(decl).as_str());
    line.append(" ");
    line.append(decl.generics.where_clause.as_str());
    line.append(" {");
    put(out, line);
    let mut to = String::from_str("    fn to_attr_data_array(self) -> ");
    to.append(data_array(decl, d).as_str());
    to.append(" {");
    put(out, to);
    let mut take = String::from_str("        let ");
    take.append(decl.ident.as_str());
    take.append(" {");
    put(out, take);
    put_rows(out, d, Row::Ident);
    put_str(out, "            ..");
    put_str(out, "        } = self;");
    put_str(out, "        [");
    put_rows(out, d, Row::DataItem);
    put_str(out, "        ]");
    put_str(out, "    }");
    let mut names = String::from_str("    fn as_attr_name_array() -> ");
    names.append(name_array(d).as_str());
    names.append(" {");
    put(out, names);
    put_str(out, "        [");
    put_rows(out, d, Row::NameItem);
    put_str(out, "        ]");
    put_str(out, "    }");
    put_str(out, "}");
    assert(texts(out@) =~= head + traits_text(*decl, *d));
}

/// All that is generated for a structure, line by line: the enumeration of
/// names and what it does, the array of the names, the enumeration of data,
/// the way back from the array to the structure, the conversions, the count
/// and the impls of the two traits.
pub open spec fn generated_text(decl: StructDecl, d: Derivation) -> Seq<Seq<char>> {
    name_enum_text(decl, d) + name_impl_text(d) + names_from_ref_text(decl, d) + data_enum_text(
        decl,
        d,
    ) + rebuild_text(decl, d) + converters_text(decl, d) + count_const_text(decl, d)
        + traits_text(decl, d)
}

/// All that is generated for a structure, line by line.
pub fn generate(decl: &StructDecl, d: &Derivation) -> (r: Vec<String>)
    ensures
        texts(r@) == generated_text(*decl, *d),
{
    let mut out: Vec<String> = Vec::new();
    assert(texts(out@) =~= Seq::<Seq<char>>::empty());
    name_enum(&mut out, decl, d);
    name_impl(&mut out, d);
    names_from_ref(&mut out, decl, d);
    data_enum(&mut out, decl, d);
    rebuild(&mut out, decl, d);
    converters(&mut out, decl, d);
    count_const(&mut out, decl, d);
    traits(&mut out, decl, d);
    assert(texts(out@) =~= generated_text(*decl, *d));
    out
}

/// The enumerations and impls for a declaration, line by line. Nothing is
/// generated for a declaration that is no structure, for an annotation
/// `strunemix` on a field that holds something else than `skip`, or where no
/// field is left.
pub fn derive(input: &StructDecl) -> (r: Result<Vec<String>, DeriveError>)
    ensures
        match r {
            Ok(lines) => {
                &&& input.kind == DeclKind::Struct
                &&& !any_misannotated(input.fields@)
                &&& included_places(input.fields@).len() > 0
                &&& exists|d: Derivation|
                    derived_from(d, *input) && texts(lines@) == #[trigger] generated_text(
                        *input,
                        d,
                    )
            },
            Err(DeriveError::NotAStructure) => input.kind != DeclKind::Struct,
            Err(DeriveError::UnknownAnnotation) => input.kind == DeclKind::Struct
                && any_misannotated(input.fields@),
            Err(DeriveError::NoFields) => input.kind == DeclKind::Struct && !any_misannotated(
                input.fields@,
            ) && included_places(input.fields@).len() == 0,
        },
{
    match field_type(input) {
        Err(e) => Err(e),
        Ok(d) => {
            let lines = generate(input, &d);
            Ok(lines)
        },
    }
}

} // verus!
