use strunemix::data::{StrunemixData, StrunemixParsableData};
use strunemix::error::StrunemixFromError;
use strunemix::name::StrunemixName;

#[derive(Debug, Default, PartialEq, Eq)]
pub struct Person {
    name: String,
    age: i32,
}

// The enumerations and impls of `Person`, as `strunemix::emit::derive` writes them.
#[derive(Debug, PartialEq, Eq, Clone, Copy)]
pub enum PersonAttrName {
    Name,
    Age,
}
impl ::strunemix::name::StrunemixName for PersonAttrName {
    fn get_str(&self) -> &'static str {
        match *self {
            PersonAttrName::Name => "name",
            PersonAttrName::Age => "age",
        }
    }
    fn from_str(name: &str) -> Result<Self, ::strunemix::error::StrunemixFromError> {
        match name {
            "name" => Ok(PersonAttrName::Name),
            "age" => Ok(PersonAttrName::Age),
            _ => Err(::strunemix::error::StrunemixFromError::NotAnEnumName(name.to_string(), "PersonAttrName".to_string())),
        }
    }
}
impl ::std::str::FromStr for PersonAttrName {
    type Err = ::strunemix::error::StrunemixFromError;
    fn from_str(name: &str) -> Result<Self, Self::Err> {
        <PersonAttrName as ::strunemix::name::StrunemixName>::from_str(name)
    }
}
impl<'field_name_from_lifetime__> From<&'field_name_from_lifetime__ Person> for [PersonAttrName; 2]  {
    fn from(_source: &'field_name_from_lifetime__ Person) -> Self {
        [
            PersonAttrName::Name,
            PersonAttrName::Age,
        ]
    }
}
#[derive(Debug, PartialEq)]
pub enum PersonAttrData  {
    Name(String),
    Age(i32),
}
impl TryFrom<[PersonAttrData; 2]> for Person  {
    type Error = ::strunemix::error::StrunemixFromError;
    fn try_from(source: [PersonAttrData; 2]) -> Result<Self, Self::Error> {
        let [
            name,
            age,
        ] = source;
        Ok(Person {
            name: match name { PersonAttrData::Name(value) => value, _ => return Err(::strunemix::error::StrunemixFromError::WrongOrder) },
            age: match age { PersonAttrData::Age(value) => value, _ => return Err(::strunemix::error::StrunemixFromError::WrongOrder) },
        })
    }
}
impl From<Person> for [PersonAttrData; 2]  {
    fn from(source: Person) -> Self {
        let Person {
            name,
            age,
            ..
        } = source;
        [
            PersonAttrData::Name(name),
            PersonAttrData::Age(age),
        ]
    }
}
impl From<PersonAttrData> for PersonAttrName  {
    fn from(source: PersonAttrData) -> PersonAttrName {
        match source {
            PersonAttrData::Name(_) => PersonAttrName::Name,
            PersonAttrData::Age(_) => PersonAttrName::Age,
        }
    }
}
impl Person  {
    pub const FIELDS_COUNT: usize = 2;
}
impl ::strunemix::data::StrunemixData<PersonAttrName> for PersonAttrData  {}
impl ::strunemix::top::StrunemixTrait<PersonAttrName, PersonAttrData, 2> for Person  {
    fn to_attr_data_array(self) -> [PersonAttrData; 2] {
        let Person {
            name,
            age,
            ..
        } = self;
        [
            PersonAttrData::Name(name),
            PersonAttrData::Age(age),
        ]
    }
    fn as_attr_name_array() -> [PersonAttrName; 2] {
        [
            PersonAttrName::Name,
            PersonAttrName::Age,
        ]
    }
}

impl StrunemixParsableData<'_, PersonAttrName> for PersonAttrData {
    fn from_name_and_data(s: PersonAttrName, arg: &str) -> Result<Self, ()> {
        match s {
            PersonAttrName::Name => Ok(PersonAttrData::Name(arg.to_string())),
            PersonAttrName::Age => arg.parse().map_err(|_| ()).map(|age| PersonAttrData::Age(age)),
        }
    }
}

#[test]
fn simple_parse_from_name() {
    let name = PersonAttrName::Name;
    let data = "John";
    let name_data = PersonAttrData::from_name_and_data(name, data).unwrap();

    assert_eq!(name_data, PersonAttrData::Name("John".to_string()));
}

#[test]
fn simple_parse_from_string() {
    let name = "name";
    let data = "John";
    let name_data = PersonAttrData::from_str_and_data(name, data).unwrap();

    assert_eq!(name_data, PersonAttrData::Name("John".to_string()));
}

#[test]
fn from_str_and_data_parses_each_field() {
    assert_eq!(PersonAttrData::from_str_and_data("age", "42"), Ok(PersonAttrData::Age(42)));
    assert_eq!(PersonAttrData::name(PersonAttrData::Age(42)), PersonAttrName::Age);
}

#[test]
fn from_str_and_data_rejects_unknown_name_and_bad_value() {
    assert_eq!(PersonAttrData::from_str_and_data("height", "42"), Err(()));
    assert_eq!(PersonAttrData::from_str_and_data("age", "forty"), Err(()));
}
