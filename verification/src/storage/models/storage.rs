//! The stored shape of the whole storage file.

use vstd::prelude::*;
use crate::models::Position;
use crate::storage::Storage;
use super::position::PositionStorageModel;
use super::sort_by::{sort_by_from_storage, sort_by_to_storage, SortByStorageModel};
use super::{FromModel, ToModel};

verus! {

#[derive(Debug)]
pub struct StorageModel {
    pub sort_positions_by: SortByStorageModel,
    pub move_closed_positions_to_bottom: bool,
    pub positions: Vec<PositionStorageModel>,
}

/// The first stored position that describes no model, if any.
pub open spec fn first_bad_model(s: Seq<PositionStorageModel>) -> Option<int>
    decreases s.len(),
{
    if s.len() == 0 {
        None
    } else if !s[0].to_model_ok() {
        Some(0)
    } else {
        match first_bad_model(s.drop_first()) {
            Some(k) => Some(k + 1),
            None => None,
        }
    }
}

proof fn lemma_first_bad_model_at(s: Seq<PositionStorageModel>, i: int)
    requires
        0 <= i < s.len(),
        forall|k: int| 0 <= k < i ==> (#[trigger] s[k]).to_model_ok(),
        !s[i].to_model_ok(),
    ensures
        first_bad_model(s) == Some(i),
    decreases i,
{
    if i > 0 {
        lemma_first_bad_model_at(s.drop_first(), i - 1);
    }
}

proof fn lemma_first_bad_model_none(s: Seq<PositionStorageModel>)
    requires
        forall|k: int| 0 <= k < s.len() ==> (#[trigger] s[k]).to_model_ok(),
    ensures
        first_bad_model(s) is None,
    decreases s.len(),
{
    if s.len() > 0 {
        lemma_first_bad_model_none(s.drop_first());
    }
}

impl ToModel<Storage> for StorageModel {
    open spec fn to_model_ok(&self) -> bool {
        forall|k: int|
            0 <= k < self.positions@.len() ==> (#[trigger] self.positions@[k]).to_model_ok()
    }

    open spec fn to_model_rel(&self, m: Storage) -> bool {
        &&& m.sort_positions_by == sort_by_from_storage(self.sort_positions_by)
        &&& m.move_closed_positions_to_bottom == self.move_closed_positions_to_bottom
        &&& m.positions@.len() == self.positions@.len()
        &&& forall|k: int|
            0 <= k < self.positions@.len() ==> (#[trigger] self.positions@[k]).to_model_rel(
                m.positions@[k],
            )
    }

    open spec fn to_model_err(&self, e: Seq<char>) -> bool {
        first_bad_model(self.positions@) matches Some(k) && self.positions@[k].to_model_err(e)
    }

    fn to_model(&self) -> (r: Result<Storage, String>) {
        let mut positions: Vec<Position> = Vec::new();
        let n = self.positions.len();
        let mut i: usize = 0;
        while i < n
            invariant
                n == self.positions@.len(),
                0 <= i <= n,
                positions@.len() == i,
                forall|k: int| 0 <= k < i ==> (#[trigger] self.positions@[k]).to_model_ok(),
                forall|k: int|
                    0 <= k < i ==> (#[trigger] self.positions@[k]).to_model_rel(
                        positions@[k],
                    ),
            decreases n - i,
        {
            match self.positions[i].to_model() {
                Ok(p) => {
                    positions.push(p);
                },
                Err(e) => {
                    proof {
                        lemma_first_bad_model_at(self.positions@, i as int);
                    }
                    return Err(e);
                },
            }
            i = i + 1;
        }
        proof {
            lemma_first_bad_model_none(self.positions@);
        }
        Ok(
            Storage {
                sort_positions_by: match &self.sort_positions_by {
                    SortByStorageModel::Id(d) => crate::sorting::SortBy::Id(
                        d.to_model_direct(),
                    ),
                    SortByStorageModel::AvgValue(d) => crate::sorting::SortBy::AvgValue(
                        d.to_model_direct(),
                    ),
                    SortByStorageModel::LastChange(d) => crate::sorting::SortBy::LastChange(
                        d.to_model_direct(),
                    ),
                    SortByStorageModel::AvgPrice(d) => crate::sorting::SortBy::AvgPrice(
                        d.to_model_direct(),
                    ),
                    SortByStorageModel::Income(d) => crate::sorting::SortBy::Income(
                        d.to_model_direct(),
                    ),
                },
                move_closed_positions_to_bottom: self.move_closed_positions_to_bottom,
                positions,
            },
        )
    }
}

impl FromModel<Storage> for StorageModel {
    open spec fn from_model_rel(model: Storage, r: Self) -> bool {
        &&& r.sort_positions_by == sort_by_to_storage(model.sort_positions_by)
        &&& r.move_closed_positions_to_bottom == model.move_closed_positions_to_bottom
        &&& r.positions@.len() == model.positions@.len()
        &&& forall|k: int|
            0 <= k < model.positions@.len() ==> PositionStorageModel::from_model_rel(
                model.positions@[k],
                #[trigger] r.positions@[k],
            )
    }

    fn from_model(model: Storage) -> (r: Self) {
        let mut position_models: Vec<PositionStorageModel> = Vec::new();
        let n = model.positions.len();
        let mut i: usize = 0;
        while i < n
            invariant
                n == model.positions@.len(),
                0 <= i <= n,
                position_models@.len() == i,
                forall|k: int|
                    0 <= k < i ==> PositionStorageModel::from_model_rel(
                        model.positions@[k],
                        #[trigger] position_models@[k],
                    ),
            decreases n - i,
        {
            let p = model.positions[i].clone();
            let pm = PositionStorageModel::from_model(p);
            proof {
                assert(PositionStorageModel::from_model_rel(model.positions@[i as int], pm));
            }
            position_models.push(pm);
            i = i + 1;
        }
        StorageModel {
            sort_positions_by: SortByStorageModel::from_model(model.sort_positions_by),
            move_closed_positions_to_bottom: model.move_closed_positions_to_bottom,
            positions: position_models,
        }
    }
}

} // verus!
