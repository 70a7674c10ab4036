use strunemix::emit::{generate, row, Row};
use strunemix::generator::{
    field_type, Annotation, AnnotationBody, DeclKind, DeriveError, FieldDecl, GenericsDecl,
    StructDecl,
};
use strunemix::text::decimal;

fn list(path: &str, items: &[&str]) -> Annotation {
    Annotation {
        path: path.to_string(),
        body: AnnotationBody::List(items.iter().map(|s| s.to_string()).collect()),
    }
}

fn field(ident: &str, ty: &str, attrs: Vec<Annotation>) -> FieldDecl {
    FieldDecl { ident: Some(ident.to_string()), ty: ty.to_string(), attrs }
}

fn person() -> StructDecl {
    StructDecl {
        kind: DeclKind::Struct,
        vis: "pub".to_string(),
        ident: "Person".to_string(),
        generics: GenericsDecl {
            declared: String::new(),
            for_impl: String::new(),
            for_type: String::new(),
            where_clause: String::new(),
        },
        attrs: vec![list("strunemix_derive_data", &["Debug", "PartialEq"])],
        fields: vec![field("name", "String", Vec::new()), field("age", "i32", Vec::new())],
    }
}

#[test]
fn numbers_are_written_in_decimal() {
    assert_eq!(decimal(0), "0");
    assert_eq!(decimal(7), "7");
    assert_eq!(decimal(10), "10");
    assert_eq!(decimal(26), "26");
    assert_eq!(decimal(1905), "1905");
}

#[test]
fn each_row_has_its_text() {
    let d = field_type(&person()).unwrap();
    assert_eq!(row(&d, Row::Variant, 0), "    Name,");
    assert_eq!(row(&d, Row::DataVariant, 1), "    Age(i32),");
    assert_eq!(row(&d, Row::LabelArm, 1), "            PersonAttrName::Age => \"age\",");
    assert_eq!(row(&d, Row::ParseArm, 0), "            \"name\" => Ok(PersonAttrName::Name),");
    assert_eq!(row(&d, Row::NameItem, 0), "            PersonAttrName::Name,");
    assert_eq!(row(&d, Row::Ident, 1), "            age,");
    assert_eq!(
        row(&d, Row::Part, 1),
        "            age: match age { PersonAttrData::Age(value) => value, _ => return Err(::strunemix::error::StrunemixFromError::WrongOrder) },"
    );
    assert_eq!(row(&d, Row::DataItem, 0), "            PersonAttrData::Name(name),");
    assert_eq!(
        row(&d, Row::Projection, 1),
        "            PersonAttrData::Age(_) => PersonAttrName::Age,"
    );
}

#[test]
fn a_structure_of_two_fields_is_written_out() {
    let lines = strunemix::emit::derive(&person()).unwrap();
    let expected = vec![
        "#[derive(Debug, PartialEq, Eq, Clone, Copy)]",
        "pub enum PersonAttrName {",
        "    Name,",
        "    Age,",
        "}",
        "impl ::strunemix::name::StrunemixName for PersonAttrName {",
        "    fn get_str(&self) -> &'static str {",
        "        match *self {",
        "            PersonAttrName::Name => \"name\",",
        "            PersonAttrName::Age => \"age\",",
        "        }",
        "    }",
        "    fn from_str(name: &str) -> Result<Self, ::strunemix::error::StrunemixFromError> {",
        "        match name {",
        "            \"name\" => Ok(PersonAttrName::Name),",
        "            \"age\" => Ok(PersonAttrName::Age),",
        "            _ => Err(::strunemix::error::StrunemixFromError::NotAnEnumName(name.to_string(), \"PersonAttrName\".to_string())),",
        "        }",
        "    }",
        "}",
        "impl ::std::str::FromStr for PersonAttrName {",
        "    type Err = ::strunemix::error::StrunemixFromError;",
        "    fn from_str(name: &str) -> Result<Self, Self::Err> {",
        "        <PersonAttrName as ::strunemix::name::StrunemixName>::from_str(name)",
        "    }",
        "}",
        "impl<'field_name_from_lifetime__> From<&'field_name_from_lifetime__ Person> for [PersonAttrName; 2]  {",
        "    fn from(_source: &'field_name_from_lifetime__ Person) -> Self {",
        "        [",
        "            PersonAttrName::Name,",
        "            PersonAttrName::Age,",
        "        ]",
        "    }",
        "}",
        "#[derive(Debug, PartialEq)]",
        "pub enum PersonAttrData  {",
        "    Name(String),",
        "    Age(i32),",
        "}",
        "impl TryFrom<[PersonAttrData; 2]> for Person  {",
        "    type Error = ::strunemix::error::StrunemixFromError;",
        "    fn try_from(source: [PersonAttrData; 2]) -> Result<Self, Self::Error> {",
        "        let [",
        "            name,",
        "            age,",
        "        ] = source;",
        "        Ok(Person {",
        "            name: match name { PersonAttrData::Name(value) => value, _ => return Err(::strunemix::error::StrunemixFromError::WrongOrder) },",
        "            age: match age { PersonAttrData::Age(value) => value, _ => return Err(::strunemix::error::StrunemixFromError::WrongOrder) },",
        "        })",
        "    }",
        "}",
        "impl From<Person> for [PersonAttrData; 2]  {",
        "    fn from(source: Person) -> Self {",
        "        let Person {",
        "            name,",
        "            age,",
        "            ..",
        "        } = source;",
        "        [",
        "            PersonAttrData::Name(name),",
        "            PersonAttrData::Age(age),",
        "        ]",
        "    }",
        "}",
        "impl From<PersonAttrData> for PersonAttrName  {",
        "    fn from(source: PersonAttrData) -> PersonAttrName {",
        "        match source {",
        "            PersonAttrData::Name(_) => PersonAttrName::Name,",
        "            PersonAttrData::Age(_) => PersonAttrName::Age,",
        "        }",
        "    }",
        "}",
        "impl Person  {",
        "    pub const FIELDS_COUNT: usize = 2;",
        "}",
        "impl ::strunemix::data::StrunemixData<PersonAttrName> for PersonAttrData  {}",
        "impl ::strunemix::top::StrunemixTrait<PersonAttrName, PersonAttrData, 2> for Person  {",
        "    fn to_attr_data_array(self) -> [PersonAttrData; 2] {",
        "        let Person {",
        "            name,",
        "            age,",
        "            ..",
        "        } = self;",
        "        [",
        "            PersonAttrData::Name(name),",
        "            PersonAttrData::Age(age),",
        "        ]",
        "    }",
        "    fn as_attr_name_array() -> [PersonAttrName; 2] {",
        "        [",
        "            PersonAttrName::Name,",
        "            PersonAttrName::Age,",
        "        ]",
        "    }",
        "}",
    ];
    assert_eq!(lines, expected);
}

#[test]
fn a_generic_structure_with_a_skipped_field_is_written_out() {
    let decl = StructDecl {
        kind: DeclKind::Struct,
        vis: String::new(),
        ident: "Person".to_string(),
        generics: GenericsDecl {
            declared: "'a, A: Default".to_string(),
            for_impl: "'a, A: Default".to_string(),
            for_type: "'a, A".to_string(),
            where_clause: "where A: Clone".to_string(),
        },
        attrs: vec![Annotation { path: "strunemix_default".to_string(), body: AnnotationBody::Bare }],
        fields: vec![
            field("name", "Option<&'a str>", Vec::new()),
            field("age", "i32", vec![list("strunemix", &["skip"])]),
            field("note", "A", Vec::new()),
        ],
    };
    let d = field_type(&decl).unwrap();
    let lines = generate(&decl, &d);
    assert_eq!(lines, strunemix::emit::derive(&decl).unwrap());

    let has = |line: &str| lines.iter().any(|l| l == line);
    assert!(has(" enum PersonAttrName {"));
    assert!(has(" enum PersonAttrData<'a, A: Default> where A: Clone {"));
    assert!(has("    Name(Option<&'a str>),"));
    assert!(has("    Note(A),"));
    assert!(!has("    Age(i32),"));
    assert!(has(
        "impl<'field_name_from_lifetime__, 'a, A: Default> From<&'field_name_from_lifetime__ Person<'a, A>> for [PersonAttrName; 2] where A: Clone {"
    ));
    assert!(has(
        "impl<'a, A: Default> TryFrom<[PersonAttrData<'a, A>; 2]> for Person<'a, A> where A: Clone {"
    ));
    assert!(has("            ..Default::default()"));
    assert!(has("impl<'a, A: Default> Person<'a, A> where A: Clone {"));
    assert!(has("    pub const FIELDS_COUNT: usize = 2;"));
    assert!(has(
        "impl<'a, A: Default> ::strunemix::top::StrunemixTrait<PersonAttrName, PersonAttrData<'a, A>, 2> for Person<'a, A> where A: Clone {"
    ));
}

#[test]
fn no_way_back_is_written_without_a_default() {
    let mut decl = person();
    decl.fields[1].attrs.push(list("strunemix", &["skip"]));
    let lines = strunemix::emit::derive(&decl).unwrap();
    assert!(!lines.iter().any(|l| l.contains("TryFrom")));
    assert!(lines.iter().any(|l| l == "    pub const FIELDS_COUNT: usize = 1;"));
    assert!(lines.iter().any(|l| l == "impl From<Person> for [PersonAttrData; 1]  {"));
}

#[test]
fn nothing_is_written_for_what_cannot_be_derived() {
    let mut decl = person();
    decl.kind = DeclKind::Union;
    assert_eq!(strunemix::emit::derive(&decl), Err(DeriveError::NotAStructure));

    let mut decl = person();
    decl.fields.clear();
    assert_eq!(strunemix::emit::derive(&decl), Err(DeriveError::NoFields));

    let mut decl = person();
    decl.fields[0].attrs.push(list("strunemix", &["skipped"]));
    assert_eq!(strunemix::emit::derive(&decl), Err(DeriveError::UnknownAnnotation));
}
