use strunemix::data::StrunemixData;
use strunemix::error::StrunemixFromError;
use strunemix::name::StrunemixName;
use strunemix::top::StrunemixTrait;

#[derive(Debug, PartialEq, Eq)]
pub struct Person {
    name: String,
    age: i32,
}

// The enumerations and impls of `Person`, as `strunemix::emit::derive` writes them.
#[derive(Debug, PartialEq, Eq, Clone, Copy)]
pub enum PersonAttrName {
    Name,
}
impl ::strunemix::name::StrunemixName for PersonAttrName {
    fn get_str(&self) -> &'static str {
        match *self {
            PersonAttrName::Name => "name",
        }
    }
    fn from_str(name: &str) -> Result<Self, ::strunemix::error::StrunemixFromError> {
        match name {
            "name" => Ok(PersonAttrName::Name),
            _ => Err(::strunemix::error::StrunemixFromError::NotAnEnumName(name.to_string(), "PersonAttrName".to_string())),
        }
    }
}
impl ::std::str::FromStr for PersonAttrName {
    type Err = ::strunemix::error::StrunemixFromError;
    fn from_str(name: &str) -> Result<Self, Self::Err> {
        <PersonAttrName as ::strunemix::name::StrunemixName>::from_str(name)
    }
}
impl<'field_name_from_lifetime__> From<&'field_name_from_lifetime__ Person> for [PersonAttrName; 1]  {
    fn from(_source: &'field_name_from_lifetime__ Person) -> Self {
        [
            PersonAttrName::Name,
        ]
    }
}
#[derive(Debug, PartialEq)]
pub enum PersonAttrData  {
    Name(String),
}
impl From<Person> for [PersonAttrData; 1]  {
    fn from(source: Person) -> Self {
        let Person {
            name,
            ..
        } = source;
        [
            PersonAttrData::Name(name),
        ]
    }
}
impl From<PersonAttrData> for PersonAttrName  {
    fn from(source: PersonAttrData) -> PersonAttrName {
        match source {
            PersonAttrData::Name(_) => PersonAttrName::Name,
        }
    }
}
impl Person  {
    pub const FIELDS_COUNT: usize = 1;
}
impl ::strunemix::data::StrunemixData<PersonAttrName> for PersonAttrData  {}
impl ::strunemix::top::StrunemixTrait<PersonAttrName, PersonAttrData, 1> for Person  {
    fn to_attr_data_array(self) -> [PersonAttrData; 1] {
        let Person {
            name,
            ..
        } = self;
        [
            PersonAttrData::Name(name),
        ]
    }
    fn as_attr_name_array() -> [PersonAttrName; 1] {
        [
            PersonAttrName::Name,
        ]
    }
}

#[test]
fn simple_skip_fields_counts() {
    assert_eq!(Person::FIELDS_COUNT, 1);
}

#[test]
fn simple_skip_name_array() {
    let name = PersonAttrName::Name;

    assert_eq!(Person::as_attr_name_array(), [name]);
}

#[test]
fn simple_skip_data_array() {
    let person = Person { name: "John".to_string(), age: 42 };

    let name = PersonAttrData::Name("John".to_string());

    assert_eq!(person.to_attr_data_array(), [name]);
}

#[test]
fn simple_skip_from_enum_name() {
    let name = PersonAttrName::Name;
    assert!(name.get_str() == "name");
}

#[test]
fn simple_skip_make_enum_name() {
    let name = "name";

    let name_enum = <PersonAttrName as StrunemixName>::from_str(name).unwrap();

    assert_eq!(name_enum, PersonAttrName::Name);

    let name_enum: PersonAttrName = name.parse().unwrap();

    assert_eq!(name_enum, PersonAttrName::Name);
}

#[test]
fn simple_skip_name_on_data() {
    let name = PersonAttrData::Name("John".to_string());
    assert_eq!(name.name(), PersonAttrName::Name);
}
