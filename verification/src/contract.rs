use crate::error::ContractError;
use crate::exec::admin::{
    answer_view, reset, reset_outcome, set_commit_block_height_interval,
    set_commit_block_height_interval_outcome, set_enabled, set_enabled_outcome, Outcome,
};
use crate::msg::{ExecuteMsg, MessageInfo};
use crate::results::Response;
use crate::state::store::{Store, StoreState};
use vstd::prelude::*;

verus! {

/// What a message does: what the operation that it names does.
pub open spec fn execute_outcome(store: StoreState, caller: Seq<char>, msg: ExecuteMsg) -> Outcome {
    match msg {
        ExecuteMsg::SetEnabled { enabled } => set_enabled_outcome(store, caller, enabled),
        ExecuteMsg::Reset {  } => reset_outcome(store, caller),
        ExecuteMsg::SetCommitBlockHeightInterval {
            commit_block_height_interval,
        } => set_commit_block_height_interval_outcome(store, caller, commit_block_height_interval),
    }
}

/// Hands a message to the operation that it names.
pub fn execute(store: &mut Store, info: MessageInfo, msg: ExecuteMsg) -> (result: Result<
    Response,
    ContractError,
>)
    ensures
        final(store)@ == execute_outcome(old(store)@, info.sender@, msg).store,
        answer_view(result) == execute_outcome(old(store)@, info.sender@, msg).result,
        result is Err ==> *final(store) == *old(store),
        old(store).well_formed() ==> final(store).well_formed(),
{
    match msg {
        ExecuteMsg::SetEnabled { enabled } => set_enabled(store, info, enabled),
        ExecuteMsg::Reset {  } => reset(store, info),
        ExecuteMsg::SetCommitBlockHeightInterval {
            commit_block_height_interval,
        } => set_commit_block_height_interval(store, info, commit_block_height_interval),
    }
}

} // verus!
