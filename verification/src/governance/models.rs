use vstd::prelude::*;
use crate::governance::enumerations::VoteOption;
use crate::store::Duplicate;

verus! {

/// One vote, as reported to a query.
#[derive(Debug, PartialEq, Eq)]
pub struct VoteInfoMsg {
    pub voter: String,
    pub option: VoteOption,
    pub amount: u128,
}

/// The model of a vote, stored or reported.
pub ghost struct VoteModel {
    pub voter: Seq<char>,
    pub option: VoteOption,
    pub amount: u128,
}

impl View for VoteInfoMsg {
    type V = VoteModel;

    open spec fn view(&self) -> VoteModel {
        VoteModel { voter: self.voter@, option: self.option, amount: self.amount }
    }
}

impl Duplicate for VoteInfoMsg {
    fn duplicate(&self) -> (r: Self) {
        VoteInfoMsg { voter: self.voter.clone(), option: self.option, amount: self.amount }
    }
}

impl Clone for VoteInfoMsg {
    fn clone(&self) -> (r: Self)
        ensures
            r@ == self@,
    {
        self.duplicate()
    }
}

} // verus!
