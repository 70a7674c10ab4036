use strunemix::error::{StrunemixFromError, StrunemixParseError};
use strunemix::name::{StrunemixName, StrunemixParsableData};

#[derive(Debug, PartialEq, Eq)]
pub struct Person {
    name: String,
    age: i32,
}

// The enumerations and impls of `Person`, as `strunemix::emit::derive` writes them.
#[derive(Debug, PartialEq, Eq, Clone, Copy)]
pub enum PersonAttrName {
    Name,
}
impl ::strunemix::name::StrunemixName for PersonAttrName {
    fn get_str(&self) -> &'static str {
        match *self {
            PersonAttrName::Name => "name",
        }
    }
    fn from_str(name: &str) -> Result<Self, ::strunemix::error::StrunemixFromError> {
        match name {
            "name" => Ok(PersonAttrName::Name),
            _ => Err(::strunemix::error::StrunemixFromError::NotAnEnumName(name.to_string(), "PersonAttrName".to_string())),
        }
    }
}
impl ::std::str::FromStr for PersonAttrName {
    type Err = ::strunemix::error::StrunemixFromError;
    fn from_str(name: &str) -> Result<Self, Self::Err> {
        <PersonAttrName as ::strunemix::name::StrunemixName>::from_str(name)
    }
}
impl<'field_name_from_lifetime__> From<&'field_name_from_lifetime__ Person> for [PersonAttrName; 1]  {
    fn from(_source: &'field_name_from_lifetime__ Person) -> Self {
        [
            PersonAttrName::Name,
        ]
    }
}
#[derive(Debug, PartialEq)]
pub enum PersonAttrData  {
    Name(String),
}
impl From<Person> for [PersonAttrData; 1]  {
    fn from(source: Person) -> Self {
        let Person {
            name,
            ..
        } = source;
        [
            PersonAttrData::Name(name),
        ]
    }
}
impl From<PersonAttrData> for PersonAttrName  {
    fn from(source: PersonAttrData) -> PersonAttrName {
        match source {
            PersonAttrData::Name(_) => PersonAttrName::Name,
        }
    }
}
impl Person  {
    pub const FIELDS_COUNT: usize = 1;
}
impl ::strunemix::data::StrunemixData<PersonAttrName> for PersonAttrData  {}
impl ::strunemix::top::StrunemixTrait<PersonAttrName, PersonAttrData, 1> for Person  {
    fn to_attr_data_array(self) -> [PersonAttrData; 1] {
        let Person {
            name,
            ..
        } = self;
        [
            PersonAttrData::Name(name),
        ]
    }
    fn as_attr_name_array() -> [PersonAttrName; 1] {
        [
            PersonAttrName::Name,
        ]
    }
}

impl<'a> StrunemixParsableData<'a, PersonAttrData> for PersonAttrName {
    fn add_data(&self, data: &str) -> Result<PersonAttrData, StrunemixParseError> {
        match &self {
            PersonAttrName::Name => Ok(PersonAttrData::Name(data.to_string())),
        }
    }
}

#[test]
fn simple_parse_skip_from_name() {
    let name = PersonAttrName::Name;

    let name_data = name.add_data("John").unwrap();
    assert_eq!(name_data, PersonAttrData::Name("John".to_string()));
}

#[test]
fn simple_parse_skip_from_string() {
    let name = "name";
    let data = "John";
    let name_data = PersonAttrName::from_str(name).unwrap().add_data(data).unwrap();

    assert_eq!(name_data, PersonAttrData::Name("John".to_string()));
}
