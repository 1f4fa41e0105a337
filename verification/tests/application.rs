use std::rc::Rc;

use user_registration::application::presenters::add_user_presenter::AddUserPresenter;
use user_registration::application::view_models::add_user_view_model::AddUserViewModel;
use user_registration::application::view_models::ViewModel;
use user_registration::business::add_user_use_case::add_user_output_message::AddUserOutputMessage;
use user_registration::business::OutputBoundary;
use user_registration::domain::entities::user_entity::UserEntity;
use user_registration::domain::errors::add_user_error::AddUserError;

fn john() -> UserEntity {
    UserEntity::new(
        String::from("Doe"),
        String::from("John"),
        String::from("john@example.com"),
        None,
    )
}

fn answer_with_john() -> AddUserOutputMessage {
    let mut message = AddUserOutputMessage::new();
    message.set_user(john());
    message
}

#[test]
fn view_model_with_user_only_is_a_success() {
    let view_model = AddUserViewModel::new(Some(Rc::new(john())), None);
    assert!(view_model.is_success());
    assert!(!view_model.is_error());
    assert_eq!(view_model.get_user().unwrap().get_last_name(), "Doe");
    assert!(view_model.get_error().is_none());
}

#[test]
fn view_model_with_error_only_is_an_error() {
    let view_model = AddUserViewModel::new(None, Some(AddUserError::new(String::from("oops"))));
    assert!(view_model.is_error());
    assert!(!view_model.is_success());
    assert!(view_model.get_user().is_none());
    assert_eq!(view_model.get_error().unwrap().get_error_message(), "oops");
}

#[test]
fn view_model_with_user_and_error_is_an_error() {
    let view_model = AddUserViewModel::new(
        Some(Rc::new(john())),
        Some(AddUserError::new(String::from("oops"))),
    );
    assert!(view_model.is_error());
    assert!(!view_model.is_success());
}

#[test]
fn view_model_with_neither_is_a_success() {
    let view_model = AddUserViewModel::new(None, None);
    assert!(view_model.is_success());
    assert!(!view_model.is_error());
}

#[test]
fn presenter_starts_without_view_model() {
    assert!(AddUserPresenter::new().get_view_model().is_none());
}

#[test]
fn presenter_shows_a_success() {
    let mut presenter = AddUserPresenter::new();
    presenter.success(answer_with_john());
    let view_model = presenter.get_view_model().unwrap();
    assert!(view_model.is_success());
    assert_eq!(view_model.get_user().unwrap().get_email(), "john@example.com");
    assert!(view_model.get_error().is_none());
}

#[test]
fn presenter_shows_an_error() {
    let mut presenter = AddUserPresenter::new();
    presenter.error(AddUserOutputMessage::new(), AddUserError::new(String::from("disk full")));
    let view_model = presenter.get_view_model().unwrap();
    assert!(view_model.is_error());
    assert!(view_model.get_user().is_none());
    assert_eq!(view_model.get_error().unwrap().get_error_message(), "disk full");
}

#[test]
fn presenter_shows_the_last_call_only() {
    let mut presenter = AddUserPresenter::new();
    presenter.error(AddUserOutputMessage::new(), AddUserError::new(String::from("disk full")));
    presenter.success(answer_with_john());
    let view_model = presenter.get_view_model().unwrap();
    assert!(view_model.is_success());
    assert!(view_model.get_error().is_none());
}
