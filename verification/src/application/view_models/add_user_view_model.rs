use std::rc::Rc;
use vstd::prelude::*;
use crate::application::view_models::ViewModel;
use crate::domain::entities::user_entity::{UserEntity, UserEntityView};
use crate::domain::errors::add_user_error::AddUserError;

verus! {

/// The outcome of adding a user, for display: the record that the use case
/// answered with, if any, and the error, if it failed. It is a success
/// exactly when it holds no error.
pub struct AddUserViewModel {
    user: Option<Rc<UserEntity>>,
    error: Option<AddUserError>,
}

pub struct AddUserViewModelView {
    pub user: Option<UserEntityView>,
    pub error: Option<Seq<char>>,
}

/// The record behind a shared pointer that may be absent.
pub open spec fn user_view(user: Option<Rc<UserEntity>>) -> Option<UserEntityView> {
    match user {
        Some(u) => Some(u@),
        None => None,
    }
}

/// The message of an error that may be absent.
pub open spec fn error_view(error: Option<AddUserError>) -> Option<Seq<char>> {
    match error {
        Some(e) => Some(e@),
        None => None,
    }
}

impl View for AddUserViewModel {
    type V = AddUserViewModelView;

    closed spec fn view(&self) -> AddUserViewModelView {
        AddUserViewModelView { user: user_view(self.user), error: error_view(self.error) }
    }
}

impl AddUserViewModel {
    pub fn new(user: Option<Rc<UserEntity>>, error: Option<AddUserError>) -> (view_model: Self)
        ensures
            view_model@ == (AddUserViewModelView {
                user: user_view(user),
                error: error_view(error),
            }),
    {
        Self { user, error }
    }

    pub fn get_user(&self) -> (user: Option<&Rc<UserEntity>>)
        ensures
            user is Some == self@.user is Some,
            user matches Some(u) ==> self@.user == Some(u@),
    {
        self.user.as_ref()
    }

    pub fn get_error(&self) -> (error: Option<&AddUserError>)
        ensures
            error is Some == self@.error is Some,
            error matches Some(e) ==> self@.error == Some(e@),
    {
        self.error.as_ref()
    }
}

impl ViewModel for AddUserViewModel {
    open spec fn has_error(&self) -> bool {
        self@.error is Some
    }

    fn is_success(&self) -> (success: bool) {
        self.error.is_none()
    }

    fn is_error(&self) -> (error: bool) {
        self.error.is_some()
    }
}

} // verus!
