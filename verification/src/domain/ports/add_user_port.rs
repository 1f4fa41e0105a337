use vstd::prelude::*;
use crate::domain::entities::user_entity::{Address, UserEntity, UserEntityView};
use crate::domain::errors::add_user_error::AddUserError;

verus! {

/// The capability to record a new user durably. A storage adapter implements
/// it; the use case calls it.
pub trait AddUserPort {
    /// Records the user, or says why it could not. A record that comes back
    /// holds exactly what was handed in.
    fn add_user(
        &self,
        lastname: &String,
        firstname: &String,
        email: &String,
        address: Option<Box<dyn Address>>,
    ) -> (result: Result<UserEntity, AddUserError>)
        ensures
            result matches Ok(user) ==> user@ == (UserEntityView {
                last_name: lastname@,
                first_name: firstname@,
                email: email@,
                address: crate::domain::entities::user_entity::address_display(address),
            }),
    ;
}

} // verus!
