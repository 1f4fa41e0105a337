use std::rc::Rc;
use vstd::prelude::*;
use crate::business::OutputMessage;
use crate::domain::entities::user_entity::{UserEntity, UserEntityView};

verus! {

/// The answer to a request to add a user: the record, once there is one. The
/// record is shared, not copied, among those who hold the answer.
pub struct AddUserOutputMessage {
    user: Option<Rc<UserEntity>>,
}

impl View for AddUserOutputMessage {
    type V = Option<UserEntityView>;

    closed spec fn view(&self) -> Option<UserEntityView> {
        match self.user {
            Some(user) => Some(user@),
            None => None,
        }
    }
}

/// `Rc::clone`: one more pointer to the same value, which is neither copied
/// nor changed.
#[verifier::external_body]
fn share(user: &Rc<UserEntity>) -> (shared: Rc<UserEntity>)
    ensures
        shared == user,
{
    Rc::clone(user)
}

impl Clone for AddUserOutputMessage {
    fn clone(&self) -> (copy: Self)
        ensures
            copy == *self,
    {
        match &self.user {
            Some(user) => Self { user: Some(share(user)) },
            None => Self { user: None },
        }
    }
}

impl AddUserOutputMessage {
    pub fn new() -> (message: Self)
        ensures
            message@ is None,
    {
        Self { user: None }
    }

    pub fn get_user(self) -> (user: Option<Rc<UserEntity>>)
        ensures
            user is Some == self@ is Some,
            user matches Some(u) ==> self@ == Some(u@),
    {
        self.user
    }

    pub fn set_user(&mut self, user: UserEntity)
        ensures
            final(self)@ == Some(user@),
    {
        self.user = Some(Rc::new(user));
    }
}

impl OutputMessage for AddUserOutputMessage {

}

} // verus!
