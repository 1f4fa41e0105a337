use vstd::prelude::*;
use crate::application::view_models::add_user_view_model::{AddUserViewModel, AddUserViewModelView};
use crate::business::add_user_use_case::add_user_output_message::AddUserOutputMessage;
use crate::business::{OutputBoundary, Report};
use crate::domain::errors::add_user_error::AddUserError;

verus! {

/// What a presenter shows of one call: the record of the answer, and the
/// error where the call brought one.
pub open spec fn shown_of(
    report: Report<AddUserOutputMessage, AddUserError>,
) -> AddUserViewModelView {
    match report {
        Report::Success { message } => AddUserViewModelView { user: message@, error: None },
        Report::Error { message, error } => AddUserViewModelView {
            user: message@,
            error: Some(error@),
        },
    }
}

/// What a presenter shows after these calls: nothing before the first, and
/// then the last one only.
pub open spec fn shown_after(
    reports: Seq<Report<AddUserOutputMessage, AddUserError>>,
) -> Option<AddUserViewModelView> {
    if reports.len() == 0 {
        None
    } else {
        Some(shown_of(reports.last()))
    }
}

/// Turns the outcome of adding a user into a view model, and keeps the one
/// of the last outcome.
pub struct AddUserPresenter {
    view_model: Option<AddUserViewModel>,
    reports: Ghost<Seq<Report<AddUserOutputMessage, AddUserError>>>,
}

impl AddUserPresenter {
    #[verifier::type_invariant]
    spec fn shows_the_last_report(&self) -> bool {
        (match self.view_model {
            Some(view_model) => Some(view_model@),
            None => None,
        }) == shown_after(self.reports@)
    }

    pub fn new() -> (presenter: Self)
        ensures
            presenter.reports() == Seq::<Report<AddUserOutputMessage, AddUserError>>::empty(),
    {
        Self { view_model: None, reports: Ghost(Seq::empty()) }
    }

    /// The view model of the last outcome, or nothing before the first.
    pub fn get_view_model(&self) -> (view_model: Option<&AddUserViewModel>)
        ensures
            view_model is Some == shown_after(self.reports()) is Some,
            view_model matches Some(v) ==> shown_after(self.reports()) == Some(v@),
    {
        proof {
            use_type_invariant(self);
        }
        self.view_model.as_ref()
    }
}

impl OutputBoundary<AddUserOutputMessage, AddUserError> for AddUserPresenter {
    closed spec fn reports(&self) -> Seq<Report<AddUserOutputMessage, AddUserError>> {
        self.reports@
    }

    fn success(&mut self, message: AddUserOutputMessage) {
        let ghost reports = self.reports@.push(Report::Success { message });
        let view_model = AddUserViewModel::new(message.get_user(), None);
        *self = Self { view_model: Some(view_model), reports: Ghost(reports) };
    }

    fn error(&mut self, message: AddUserOutputMessage, error: AddUserError) {
        let ghost reports = self.reports@.push(Report::Error { message, error });
        let view_model = AddUserViewModel::new(message.get_user(), Some(error));
        *self = Self { view_model: Some(view_model), reports: Ghost(reports) };
    }
}

} // verus!
