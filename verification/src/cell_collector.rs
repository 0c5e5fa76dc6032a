//! The roles that a cell can play, and the names by which a
//! classifier knows them.

use vstd::prelude::*;
use crate::error::Error;

verus! {

/// The role of a cell in the governance layer.
#[derive(Debug, Clone, Copy, PartialEq, Eq, Structural)]
pub enum DAOCellType {
    Treasury,
    Proposal,
    Representative,
    Vote,
    Delegation,
    AddressBinding,
}

/// The tag under which a classifier files the cells of one role.
#[derive(Debug, Clone, Copy)]
pub struct CellClass {
    /// The name of the class.
    pub name: &'static str,
}

impl DAOCellType {
    /// The name of the class that holds the cells of this role.
    pub open spec fn class_name(self) -> Seq<char> {
        match self {
            DAOCellType::Treasury => "treasury"@,
            DAOCellType::Proposal => "proposal"@,
            DAOCellType::Representative => "representative"@,
            DAOCellType::Vote => "vote"@,
            DAOCellType::Delegation => "delegation"@,
            DAOCellType::AddressBinding => "address_binding"@,
        }
    }

    /// Returns the class that holds the cells of this role.
    pub fn to_cell_class(&self) -> (class: CellClass)
        ensures
            class.name@ == self.class_name(),
    {
        match self {
            DAOCellType::Treasury => CellClass { name: "treasury" },
            DAOCellType::Proposal => CellClass { name: "proposal" },
            DAOCellType::Representative => CellClass { name: "representative" },
            DAOCellType::Vote => CellClass { name: "vote" },
            DAOCellType::Delegation => CellClass { name: "delegation" },
            DAOCellType::AddressBinding => CellClass { name: "address_binding" },
        }
    }
}

/// The outcome of classifying the cells of a transaction: each entry is the
/// role that was found for one cell, or `None` where no class matched. The
/// transaction is refused as soon as one cell has no role.
pub open spec fn classification_outcome(roles: Seq<Option<DAOCellType>>) -> Result<(), Error> {
    if exists|i: int| 0 <= i < roles.len() && roles[i] is None {
        Err(Error::UnidentifiedCells)
    } else {
        Ok(())
    }
}

/// Checks that every cell of a transaction was given a role.
pub fn validate_classification(roles: &[Option<DAOCellType>]) -> (outcome: Result<(), Error>)
    ensures
        outcome == classification_outcome(roles@),
{
    let mut index: usize = 0;
    while index < roles.len()
        invariant
            index <= roles@.len(),
            forall|i: int| 0 <= i < index ==> roles@[i] is Some,
        decreases roles@.len() - index,
    {
        if roles[index].is_none() {
            return Err(Error::UnidentifiedCells);
        }
        index += 1;
    }
    Ok(())
}

/// No two roles share a class name.
pub proof fn lemma_class_name_identifies_role(first: DAOCellType, second: DAOCellType)
    requires
        first.class_name() == second.class_name(),
    ensures
        first == second,
{
    reveal_strlit("treasury");
    reveal_strlit("proposal");
    reveal_strlit("representative");
    reveal_strlit("vote");
    reveal_strlit("delegation");
    reveal_strlit("address_binding");
    assert("treasury"@.len() == 8 && "treasury"@[0] == 't');
    assert("proposal"@.len() == 8 && "proposal"@[0] == 'p');
    assert("representative"@.len() == 14);
    assert("vote"@.len() == 4);
    assert("delegation"@.len() == 10);
    assert("address_binding"@.len() == 15);
}

} // verus!
