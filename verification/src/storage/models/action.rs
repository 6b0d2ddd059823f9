//! The stored shape of an order's side.

use vstd::prelude::*;
use crate::models::Action;
use super::{FromModel, ToModel};

verus! {

#[derive(Debug, Clone, Copy)]
pub enum ActionStorageModel {
    L,
    S,
}

/// The side a stored letter stands for.
pub open spec fn action_from_storage(m: ActionStorageModel) -> Action {
    match m {
        ActionStorageModel::L => Action::Long,
        ActionStorageModel::S => Action::Short,
    }
}

/// The stored letter of a side.
pub open spec fn action_to_storage(a: Action) -> ActionStorageModel {
    match a {
        Action::Long => ActionStorageModel::L,
        Action::Short => ActionStorageModel::S,
    }
}

impl ToModel<Action> for ActionStorageModel {
    open spec fn to_model_ok(&self) -> bool {
        true
    }

    open spec fn to_model_rel(&self, m: Action) -> bool {
        m == action_from_storage(*self)
    }

    open spec fn to_model_err(&self, e: Seq<char>) -> bool {
        false
    }

    fn to_model(&self) -> (r: Result<Action, String>) {
        match self {
            ActionStorageModel::L => Ok(Action::Long),
            ActionStorageModel::S => Ok(Action::Short),
        }
    }
}

impl FromModel<Action> for ActionStorageModel {
    open spec fn from_model_rel(model: Action, r: Self) -> bool {
        r == action_to_storage(model)
    }

    fn from_model(model: Action) -> (r: Self) {
        match model {
            Action::Long => ActionStorageModel::L,
            Action::Short => ActionStorageModel::S,
        }
    }
}

} // verus!
