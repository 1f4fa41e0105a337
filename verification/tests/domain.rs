use user_registration::domain::entities::user_entity::{Address, UserEntity};
use user_registration::domain::errors::add_user_error::AddUserError;

struct FrenchAddress {
    street: String,
    postal_code: String,
    city: String,
}

impl Address for FrenchAddress {
    // Ghost code: it states what `to_string` renders, and never runs.
    fn display(&self) -> vstd::seq::Seq<char> {
        unreachable!()
    }

    fn to_string(&self) -> String {
        format!("{}, {} {}", self.street, self.postal_code, self.city)
    }
}

fn john() -> UserEntity {
    UserEntity::new(
        String::from("Doe"),
        String::from("John"),
        String::from("john@example.com"),
        None,
    )
}

#[test]
fn user_entity_keeps_its_fields() {
    let user = john();
    assert_eq!(user.get_last_name(), "Doe");
    assert_eq!(user.get_first_name(), "John");
    assert_eq!(user.get_email(), "john@example.com");
    assert!(user.get_address().is_none());
}

#[test]
fn user_entity_does_not_trim() {
    let user = UserEntity::new(String::from(" Doe"), String::from(""), String::from("x "), None);
    assert_eq!(user.get_last_name(), " Doe");
    assert_eq!(user.get_first_name(), "");
    assert_eq!(user.get_email(), "x ");
}

#[test]
fn user_entity_keeps_its_address() {
    let address = FrenchAddress {
        street: String::from("55 Rue du Faubourg Saint-Honoré"),
        postal_code: String::from("75008"),
        city: String::from("Paris"),
    };
    let user = UserEntity::new(
        String::from("Doe"),
        String::from("John"),
        String::from("john@example.com"),
        Some(Box::new(address)),
    );
    assert_eq!(
        user.get_address().unwrap().to_string(),
        "55 Rue du Faubourg Saint-Honoré, 75008 Paris"
    );
}

#[test]
fn user_entity_to_string_is_one_line() {
    assert_eq!(john().to_string(), "The user Doe John have email : john@example.com\n");
}

#[test]
fn add_user_error_keeps_its_message() {
    let error = AddUserError::new(String::from("disk full"));
    assert_eq!(error.get_error_message(), "disk full");
}

#[test]
fn add_user_error_to_string_introduces_the_message() {
    let error = AddUserError::new(String::from("disk full"));
    assert_eq!(error.to_string(), "A problem occurred while adding a new user : disk full");
}

#[test]
fn add_user_error_to_string_of_empty_message() {
    let error = AddUserError::new(String::new());
    assert_eq!(error.to_string(), "A problem occurred while adding a new user : ");
}
