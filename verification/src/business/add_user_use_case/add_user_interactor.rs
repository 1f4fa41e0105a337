use vstd::prelude::*;
use crate::business::add_user_use_case::add_user_input_message::AddUserInputMessage;
use crate::business::add_user_use_case::add_user_output_message::AddUserOutputMessage;
use crate::business::{InputBoundary, OutputBoundary, Report};
use crate::domain::entities::user_entity::{UserEntity, UserEntityView};
use crate::domain::errors::add_user_error::AddUserError;
use crate::domain::ports::add_user_port::AddUserPort;

verus! {

/// Carries out the request to add a user: hands the names to the storage
/// port, and tells the presenter how it went.
///
/// The answer it holds is that of the last request alone: the record where
/// the request succeeded, nothing where it failed. So one interactor used for
/// many requests answers each as a new one would.
pub struct AddUserInteractor<P, R> where
    P: OutputBoundary<AddUserOutputMessage, AddUserError>,
    R: AddUserPort,
{
    presenter: P,
    add_user_repository: R,
    output_message: AddUserOutputMessage,
}

impl<P, R> AddUserInteractor<P, R> where
    P: OutputBoundary<AddUserOutputMessage, AddUserError>,
    R: AddUserPort,
{
    pub closed spec fn presenter(&self) -> P {
        self.presenter
    }

    pub closed spec fn add_user_repository(&self) -> R {
        self.add_user_repository
    }

    pub closed spec fn output_message(&self) -> AddUserOutputMessage {
        self.output_message
    }

    pub fn new(presenter: P, add_user_repository: R) -> (interactor: Self)
        ensures
            interactor.presenter() == presenter,
            interactor.add_user_repository() == add_user_repository,
            interactor.output_message()@ is None,
    {
        Self { presenter, add_user_repository, output_message: AddUserOutputMessage::new() }
    }

    pub fn get_presenter(&self) -> (presenter: &P)
        ensures
            *presenter == self.presenter(),
    {
        &self.presenter
    }

    /// Tells the presenter what the storage port answered, once. A record
    /// becomes the answer and is reported as a success. A failure empties the
    /// answer and is reported as an error beside it: no record of an earlier
    /// request is shown again.
    pub fn report(&mut self, result: Result<UserEntity, AddUserError>)
        ensures
            final(self).add_user_repository() == old(self).add_user_repository(),
            match result {
                Ok(user) => {
                    &&& final(self).output_message()@ == Some(user@)
                    &&& final(self).presenter().reports() == old(self).presenter().reports().push(
                        Report::Success { message: final(self).output_message() },
                    )
                },
                Err(error) => {
                    &&& final(self).output_message()@ is None
                    &&& final(self).presenter().reports() == old(self).presenter().reports().push(
                        Report::Error { message: final(self).output_message(), error },
                    )
                },
            },
    {
        match result {
            Ok(user) => {
                self.output_message.set_user(user);
                let answer = self.output_message.clone();
                self.presenter.success(answer);
            },
            Err(error) => {
                self.output_message = AddUserOutputMessage::new();
                let answer = self.output_message.clone();
                self.presenter.error(answer, error);
            },
        }
    }
}

impl<P, R> InputBoundary<AddUserInputMessage> for AddUserInteractor<P, R> where
    P: OutputBoundary<AddUserOutputMessage, AddUserError>,
    R: AddUserPort,
{
    /// Hands the three names of the request to the storage port, with no
    /// address, and reports its answer.
    ///
    /// The presenter receives one call more, whatever the port answered: a
    /// success with the record of exactly these names, or an error with no
    /// record at all. Either way the message it receives is the answer that
    /// the interactor then holds.
    fn execute(&mut self, message: AddUserInputMessage)
        ensures
            final(self).add_user_repository() == old(self).add_user_repository(),
            final(self).presenter().reports().len() == old(self).presenter().reports().len() + 1,
            final(self).presenter().reports().drop_last() == old(self).presenter().reports(),
            match final(self).presenter().reports().last() {
                Report::Success { message: answer } => {
                    &&& answer == final(self).output_message()
                    &&& answer@ == Some(
                        UserEntityView {
                            last_name: message@.last_name,
                            first_name: message@.first_name,
                            email: message@.email,
                            address: None,
                        },
                    )
                },
                Report::Error { message: answer, .. } => {
                    &&& answer == final(self).output_message()
                    &&& answer@ is None
                },
            },
    {
        let result = self.add_user_repository.add_user(
            message.get_last_name(),
            message.get_first_name(),
            message.get_email(),
            None,
        );
        let ghost before = self.presenter.reports();
        self.report(result);
        assert(self.presenter.reports().drop_last() =~= before);
    }
}

} // verus!
