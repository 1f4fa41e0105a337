use vstd::prelude::*;

pub mod add_user_view_model;

verus! {

/// An outcome made ready for display. It shows a success or an error, never
/// both and never neither.
pub trait ViewModel {
    /// Whether an error is shown.
    spec fn has_error(&self) -> bool;

    fn is_success(&self) -> (success: bool)
        ensures
            success == !self.has_error(),
    ;

    fn is_error(&self) -> (error: bool)
        ensures
            error == self.has_error(),
    ;
}

} // verus!
