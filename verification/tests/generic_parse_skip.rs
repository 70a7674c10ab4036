use strunemix::data::StrunemixData;
use strunemix::error::{StrunemixError, StrunemixFromError, StrunemixParseError};
use strunemix::name::{StrunemixName, StrunemixParsableData};
use strunemix::top::StrunemixTrait;

#[derive(Debug, Default, PartialEq, Eq)]
pub struct Person<'a, A: Default> {
    name: Option<&'a str>,
    age: i32,
    note: A,
}

// The enumerations and impls of `Person`, as `strunemix::emit::derive` writes them.
#[derive(Debug, PartialEq, Eq, Clone, Copy, PartialOrd, Ord)]
pub enum PersonAttrName {
    Name,
    Note,
}
impl ::strunemix::name::StrunemixName for PersonAttrName {
    fn get_str(&self) -> &'static str {
        match *self {
            PersonAttrName::Name => "name",
            PersonAttrName::Note => "note",
        }
    }
    fn from_str(name: &str) -> Result<Self, ::strunemix::error::StrunemixFromError> {
        match name {
            "name" => Ok(PersonAttrName::Name),
            "note" => Ok(PersonAttrName::Note),
            _ => Err(::strunemix::error::StrunemixFromError::NotAnEnumName(name.to_string(), "PersonAttrName".to_string())),
        }
    }
}
impl ::std::str::FromStr for PersonAttrName {
    type Err = ::strunemix::error::StrunemixFromError;
    fn from_str(name: &str) -> Result<Self, Self::Err> {
        <PersonAttrName as ::strunemix::name::StrunemixName>::from_str(name)
    }
}
impl<'field_name_from_lifetime__, 'a, A: Default> From<&'field_name_from_lifetime__ Person<'a, A>> for [PersonAttrName; 2]  {
    fn from(_source: &'field_name_from_lifetime__ Person<'a, A>) -> Self {
        [
            PersonAttrName::Name,
            PersonAttrName::Note,
        ]
    }
}
#[derive(Debug, PartialEq)]
pub enum PersonAttrData<'a, A: Default>  {
    Name(Option<&'a str>),
    Note(A),
}
impl<'a, A: Default> TryFrom<[PersonAttrData<'a, A>; 2]> for Person<'a, A>  {
    type Error = ::strunemix::error::StrunemixFromError;
    fn try_from(source: [PersonAttrData<'a, A>; 2]) -> Result<Self, Self::Error> {
        let [
            name,
            note,
        ] = source;
        Ok(Person {
            name: match name { PersonAttrData::Name(value) => value, _ => return Err(::strunemix::error::StrunemixFromError::WrongOrder) },
            note: match note { PersonAttrData::Note(value) => value, _ => return Err(::strunemix::error::StrunemixFromError::WrongOrder) },
            ..Default::default()
        })
    }
}
impl<'a, A: Default> From<Person<'a, A>> for [PersonAttrData<'a, A>; 2]  {
    fn from(source: Person<'a, A>) -> Self {
        let Person {
            name,
            note,
            ..
        } = source;
        [
            PersonAttrData::Name(name),
            PersonAttrData::Note(note),
        ]
    }
}
impl<'a, A: Default> From<PersonAttrData<'a, A>> for PersonAttrName  {
    fn from(source: PersonAttrData<'a, A>) -> PersonAttrName {
        match source {
            PersonAttrData::Name(_) => PersonAttrName::Name,
            PersonAttrData::Note(_) => PersonAttrName::Note,
        }
    }
}
impl<'a, A: Default> Person<'a, A>  {
    pub const FIELDS_COUNT: usize = 2;
}
impl<'a, A: Default> ::strunemix::data::StrunemixData<PersonAttrName> for PersonAttrData<'a, A>  {}
impl<'a, A: Default> ::strunemix::top::StrunemixTrait<PersonAttrName, PersonAttrData<'a, A>, 2> for Person<'a, A>  {
    fn to_attr_data_array(self) -> [PersonAttrData<'a, A>; 2] {
        let Person {
            name,
            note,
            ..
        } = self;
        [
            PersonAttrData::Name(name),
            PersonAttrData::Note(note),
        ]
    }
    fn as_attr_name_array() -> [PersonAttrName; 2] {
        [
            PersonAttrName::Name,
            PersonAttrName::Note,
        ]
    }
}

impl<'a, 'b> StrunemixParsableData<'a, PersonAttrData<'b, String>> for PersonAttrName
where
    'a: 'b,
{
    fn add_data(&self, data: &'a str) -> Result<PersonAttrData<'b, String>, StrunemixParseError> {
        match self {
            PersonAttrName::Name => Ok(PersonAttrData::Name(Some(data))),
            PersonAttrName::Note => {
                if data.is_empty() {
                    Err(StrunemixParseError::Other("a note cannot be empty".to_string()))
                } else {
                    Ok(PersonAttrData::Note(data.to_string()))
                }
            }
        }
    }
}

#[test]
fn generic_parse_skip_from_name() {
    let name = PersonAttrName::Name;
    let name_data = name.add_data("John").unwrap();

    assert_eq!(name_data, PersonAttrData::Name(Some("John")));
}

#[test]
fn generic_parse_skip_from_string() {
    let name = "name";
    let data = "John";
    let name_data = PersonAttrName::from_str(name).unwrap().add_data(data).unwrap();

    assert_eq!(name_data, PersonAttrData::Name(Some("John")));
}

#[test]
fn generic_parse_skip_form() {
    let person = Person { name: Some("John"), age: 42, note: "note".to_string() };

    let mut form = person.to_form::<String>();

    assert_eq!(
        form.get_data(PersonAttrName::Name).unwrap(),
        Some(&PersonAttrData::Name(Some("John")))
    );
    assert_eq!(
        form.get_data(PersonAttrName::Note).unwrap(),
        Some(&PersonAttrData::Note("note".to_string()))
    );

    let note = form.get_data_mut(PersonAttrName::Note).unwrap();
    if let Some(PersonAttrData::Note(note)) = note {
        *note = "new note".to_string();
    }

    form.set_data(PersonAttrName::Name, PersonAttrData::Name(Some("Jane"))).unwrap();

    let note = form.get_data(PersonAttrName::Note).unwrap();
    let name = form.get_data(PersonAttrName::Name).unwrap();

    assert_eq!(note, Some(&PersonAttrData::Note("new note".to_string())));
    assert_eq!(name, Some(&PersonAttrData::Name(Some("Jane"))));

    let person_new = Person::from_form(form).unwrap();

    assert_eq!(
        person_new,
        Person { name: Some("Jane"), age: i32::default(), note: "new note".to_string() }
    );
}

#[test]
fn set_data_str_stores_what_the_rule_reads() {
    let mut form = Person::<String>::empty_form::<()>();

    form.set_data_str(PersonAttrName::Name, "John").unwrap();
    form.set_data_str("note", "hello").unwrap();

    assert_eq!(form.get_data("name").unwrap(), Some(&PersonAttrData::Name(Some("John"))));
    assert_eq!(
        form.get_data(PersonAttrName::Note).unwrap(),
        Some(&PersonAttrData::Note("hello".to_string()))
    );
    assert!(form.is_complete());
}

#[test]
fn set_data_str_leaves_the_slot_on_failure() {
    let mut form = Person::<String>::empty_form::<()>();
    form.set_data_str("note", "hello").unwrap();

    match form.set_data_str("note", "") {
        Err(StrunemixError::ParseError(StrunemixParseError::Other(text))) => {
            assert_eq!(text, "a note cannot be empty")
        }
        _ => panic!("the failure of the rule must be handed on"),
    }
    assert_eq!(
        form.get_data(PersonAttrName::Note).unwrap(),
        Some(&PersonAttrData::Note("hello".to_string()))
    );

    match form.set_data_str("age", "42") {
        Err(StrunemixError::ConversionError(StrunemixFromError::NotAnEnumName(text, owner))) => {
            assert_eq!(text, "age");
            assert_eq!(owner, "PersonAttrName");
        }
        _ => panic!("a skipped field is no key of the form"),
    }
}

#[test]
fn store_parsed_takes_either_outcome() {
    let mut form = Person::<String>::empty_form::<()>();

    form.store_parsed(PersonAttrName::Note, Ok(PersonAttrData::Note("n".to_string()))).unwrap();
    assert_eq!(
        form.get_data(PersonAttrName::Note).unwrap(),
        Some(&PersonAttrData::Note("n".to_string()))
    );

    let failed =
        form.store_parsed(PersonAttrName::Name, Err(StrunemixParseError::Other("no".to_string())));
    assert!(matches!(failed, Err(StrunemixError::ParseError(StrunemixParseError::Other(_)))));
    assert_eq!(form.get_data(PersonAttrName::Name).unwrap(), None);
}
