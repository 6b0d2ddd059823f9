//! The stored shapes of the ledger's data, and the conversions between
//! them and the working model.

pub mod action;
pub mod order;
pub mod position;
pub mod sort_by;
pub mod storage;

pub use action::ActionStorageModel;
pub use order::OrderStorageModel;
pub use position::PositionStorageModel;

use vstd::prelude::*;

verus! {

/// Conversion from a stored shape to the working model.
pub trait ToModel<T>: Sized {
    /// Whether the stored form describes a model at all.
    spec fn to_model_ok(&self) -> bool;

    /// How the produced model relates to the stored form.
    spec fn to_model_rel(&self, m: T) -> bool;

    /// Which message a failed conversion carries.
    spec fn to_model_err(&self, e: Seq<char>) -> bool;

    fn to_model(&self) -> (r: Result<T, String>)
        ensures
            r is Ok <==> self.to_model_ok(),
            r matches Ok(m) ==> self.to_model_rel(m),
            r matches Err(e) ==> self.to_model_err(e@),
    ;
}

/// Conversion from the working model to its stored shape.
pub trait FromModel<T>: Sized {
    /// How the stored form relates to the model it was made from.
    spec fn from_model_rel(model: T, r: Self) -> bool;

    fn from_model(model: T) -> (r: Self)
        ensures
            Self::from_model_rel(model, r),
    ;
}

} // verus!
