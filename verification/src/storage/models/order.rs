//! The stored shape of an order: only what cannot be recomputed.

use vstd::prelude::*;
use crate::fixed::Fixed;
use crate::models::Order;
use super::action::{action_to_storage, ActionStorageModel};
use super::FromModel;

verus! {

#[derive(Debug, Clone, Copy)]
pub struct OrderStorageModel {
    pub id: i32,
    pub action: ActionStorageModel,
    pub amount: Fixed,
    pub value: Fixed,
}

impl FromModel<Order> for OrderStorageModel {
    open spec fn from_model_rel(model: Order, r: Self) -> bool {
        &&& r.id == model.id
        &&& r.action == action_to_storage(model.action)
        &&& r.amount == model.amount
        &&& r.value == model.value
    }

    fn from_model(model: Order) -> (r: Self) {
        OrderStorageModel {
            id: model.id,
            action: ActionStorageModel::from_model(model.action),
            amount: model.amount,
            value: model.value,
        }
    }
}

} // verus!
