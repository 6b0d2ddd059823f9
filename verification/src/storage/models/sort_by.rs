//! The stored shape of the table's sorting choice.

use vstd::prelude::*;
use crate::sorting::{SortBy, SortDirection};
use super::{FromModel, ToModel};

verus! {

#[derive(Debug, Clone, Copy)]
pub enum SortDirectionStorageModel {
    A,
    D,
}

/// The direction a stored letter stands for.
pub open spec fn direction_from_storage(m: SortDirectionStorageModel) -> SortDirection {
    match m {
        SortDirectionStorageModel::A => SortDirection::Ascending,
        SortDirectionStorageModel::D => SortDirection::Descending,
    }
}

/// The stored letter of a direction.
pub open spec fn direction_to_storage(d: SortDirection) -> SortDirectionStorageModel {
    match d {
        SortDirection::Ascending => SortDirectionStorageModel::A,
        SortDirection::Descending => SortDirectionStorageModel::D,
    }
}

impl ToModel<SortDirection> for SortDirectionStorageModel {
    open spec fn to_model_ok(&self) -> bool {
        true
    }

    open spec fn to_model_rel(&self, m: SortDirection) -> bool {
        m == direction_from_storage(*self)
    }

    open spec fn to_model_err(&self, e: Seq<char>) -> bool {
        false
    }

    fn to_model(&self) -> (r: Result<SortDirection, String>) {
        match self {
            SortDirectionStorageModel::A => Ok(SortDirection::Ascending),
            SortDirectionStorageModel::D => Ok(SortDirection::Descending),
        }
    }
}

impl FromModel<SortDirection> for SortDirectionStorageModel {
    open spec fn from_model_rel(model: SortDirection, r: Self) -> bool {
        r == direction_to_storage(model)
    }

    fn from_model(model: SortDirection) -> (r: Self) {
        match model {
            SortDirection::Ascending => Self::A,
            SortDirection::Descending => Self::D,
        }
    }
}

#[derive(Debug, Clone, Copy)]
pub enum SortByStorageModel {
    Id(SortDirectionStorageModel),
    AvgValue(SortDirectionStorageModel),
    LastChange(SortDirectionStorageModel),
    AvgPrice(SortDirectionStorageModel),
    Income(SortDirectionStorageModel),
}

/// The sorting choice a stored tag stands for.
pub open spec fn sort_by_from_storage(m: SortByStorageModel) -> SortBy {
    match m {
        SortByStorageModel::Id(d) => SortBy::Id(direction_from_storage(d)),
        SortByStorageModel::AvgValue(d) => SortBy::AvgValue(direction_from_storage(d)),
        SortByStorageModel::LastChange(d) => SortBy::LastChange(direction_from_storage(d)),
        SortByStorageModel::AvgPrice(d) => SortBy::AvgPrice(direction_from_storage(d)),
        SortByStorageModel::Income(d) => SortBy::Income(direction_from_storage(d)),
    }
}

/// The stored tag of a sorting choice.
pub open spec fn sort_by_to_storage(k: SortBy) -> SortByStorageModel {
    match k {
        SortBy::Id(d) => SortByStorageModel::Id(direction_to_storage(d)),
        SortBy::AvgValue(d) => SortByStorageModel::AvgValue(direction_to_storage(d)),
        SortBy::LastChange(d) => SortByStorageModel::LastChange(direction_to_storage(d)),
        SortBy::AvgPrice(d) => SortByStorageModel::AvgPrice(direction_to_storage(d)),
        SortBy::Income(d) => SortByStorageModel::Income(direction_to_storage(d)),
    }
}

impl Default for SortByStorageModel {
    /// A fresh storage sorts by the last change, newest on top.
    fn default() -> (r: Self)
        ensures
            r == SortByStorageModel::LastChange(SortDirectionStorageModel::D),
    {
        SortByStorageModel::LastChange(SortDirectionStorageModel::D)
    }
}

impl ToModel<SortBy> for SortByStorageModel {
    open spec fn to_model_ok(&self) -> bool {
        true
    }

    open spec fn to_model_rel(&self, m: SortBy) -> bool {
        m == sort_by_from_storage(*self)
    }

    open spec fn to_model_err(&self, e: Seq<char>) -> bool {
        false
    }

    fn to_model(&self) -> (r: Result<SortBy, String>) {
        match self {
            Self::Id(d) => Ok(SortBy::Id(d.to_model_direct())),
            Self::AvgPrice(d) => Ok(SortBy::AvgPrice(d.to_model_direct())),
            Self::AvgValue(d) => Ok(SortBy::AvgValue(d.to_model_direct())),
            Self::Income(d) => Ok(SortBy::Income(d.to_model_direct())),
            Self::LastChange(d) => Ok(SortBy::LastChange(d.to_model_direct())),
        }
    }
}

impl SortDirectionStorageModel {
    /// The direction itself; unlike the fallible conversion, nothing can
    /// go wrong here.
    pub fn to_model_direct(&self) -> (r: SortDirection)
        ensures
            r == direction_from_storage(*self),
    {
        match self {
            SortDirectionStorageModel::A => SortDirection::Ascending,
            SortDirectionStorageModel::D => SortDirection::Descending,
        }
    }
}

impl FromModel<SortBy> for SortByStorageModel {
    open spec fn from_model_rel(model: SortBy, r: Self) -> bool {
        r == sort_by_to_storage(model)
    }

    fn from_model(model: SortBy) -> (r: Self) {
        match model {
            SortBy::AvgPrice(d) => Self::AvgPrice(SortDirectionStorageModel::from_model(d)),
            SortBy::AvgValue(d) => Self::AvgValue(SortDirectionStorageModel::from_model(d)),
            SortBy::Income(d) => Self::Income(SortDirectionStorageModel::from_model(d)),
            SortBy::LastChange(d) => Self::LastChange(SortDirectionStorageModel::from_model(d)),
            SortBy::Id(d) => Self::Id(SortDirectionStorageModel::from_model(d)),
        }
    }
}

} // verus!
