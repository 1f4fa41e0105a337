//! Use cases, and the boundaries through which they are asked and answer.

use vstd::prelude::*;

pub mod add_user_use_case;

verus! {

/// What is asked of a use case.
pub trait InputMessage {

}

/// What a use case answers.
pub trait OutputMessage {

}

/// The way into a use case: one request, carried out to its end.
pub trait InputBoundary<T> where T: InputMessage {
    fn execute(&mut self, message: T);
}

/// One call that an output boundary received.
pub enum Report<T, V> {
    Success { message: T },
    Error { message: T, error: V },
}

/// The way out of a use case: it is told of a success, or of an error. What
/// it makes of either is its own matter; what it was told is on record.
pub trait OutputBoundary<T, V> where T: OutputMessage {
    /// Every call received so far, the oldest first.
    spec fn reports(&self) -> Seq<Report<T, V>>;

    fn success(&mut self, message: T)
        ensures
            final(self).reports() == old(self).reports().push(Report::Success { message }),
    ;

    fn error(&mut self, message: T, error: V)
        ensures
            final(self).reports() == old(self).reports().push(Report::Error { message, error }),
    ;
}

} // verus!
