//! What holds of the control plane whatever the store holds and whoever
//! calls, stated over the outcomes of its operations.

use crate::contract::execute_outcome;
use crate::error::ContractErrorView;
use crate::exec::admin::{
    interval_event, refused, reset_event, reset_outcome, set_commit_block_height_interval_outcome,
    set_enabled_outcome, Outcome,
};
use crate::msg::ExecuteMsg;
use crate::results::ResponseView;
use crate::state::config::ConfigView;
use crate::state::store::StoreState;
use vstd::prelude::*;

verus! {

/// Whoever is not the administrator is refused as `Unauthorized`, whatever
/// the message, and the store stays as it was. The administrator's entry must
/// be loadable: while it is not, the failure of the store is the answer.
pub proof fn stranger_is_refused(store: StoreState, caller: Seq<char>, msg: ExecuteMsg)
    requires
        store.admin is Ok,
        !store.is_admin(caller),
    ensures
        execute_outcome(store, caller, msg) == refused(store, ContractErrorView::Unauthorized),
{
}

/// An operation that fails leaves the store as it was, whatever the failure.
pub proof fn failure_leaves_store(store: StoreState, caller: Seq<char>, msg: ExecuteMsg)
    ensures
        execute_outcome(store, caller, msg).result is Err ==> execute_outcome(
            store,
            caller,
            msg,
        ).store == store,
{
}

/// Every operation keeps the collections well formed.
pub proof fn well_formedness_is_kept(store: StoreState, caller: Seq<char>, msg: ExecuteMsg)
    requires
        store.well_formed(),
    ensures
        execute_outcome(store, caller, msg).store.well_formed(),
{
}

/// No operation touches the administrator's entry.
pub proof fn admin_is_never_touched(store: StoreState, caller: Seq<char>, msg: ExecuteMsg)
    ensures
        execute_outcome(store, caller, msg).store.admin == store.admin,
{
}

/// The switch only ever moves to the other state. `set_enabled` succeeds for
/// the administrator exactly when the switch is in the state opposite to the
/// one asked for; it then saves the state asked for, changes nothing else and
/// emits nothing.
pub proof fn switch_moves_to_other_state(store: StoreState, caller: Seq<char>, enabled: bool)
    ensures
        set_enabled_outcome(store, caller, enabled).result is Ok <==> store.is_admin(caller)
            && store.is_enabled == Ok::<bool, Seq<char>>(!enabled),
        set_enabled_outcome(store, caller, enabled).result is Ok ==> set_enabled_outcome(
            store,
            caller,
            enabled,
        ) == (Outcome {
            store: StoreState { is_enabled: Ok(enabled), ..store },
            result: Ok(ResponseView::empty()),
        }),
{
}

/// Asking twice in a row for the same state of the switch: the second call
/// fails, as `AlreadyEnabled` where the gadget was to be on and as
/// `AlreadyDisabled` where it was to be off, and after either call the switch
/// is in the state asked for.
pub proof fn second_request_is_refused(store: StoreState, caller: Seq<char>, enabled: bool)
    requires
        store.is_admin(caller),
        store.is_enabled is Ok,
    ensures
        ({
            let first = set_enabled_outcome(store, caller, enabled);
            let second = set_enabled_outcome(first.store, caller, enabled);
            &&& first.store.is_enabled == Ok::<bool, Seq<char>>(enabled)
            &&& second.store.is_enabled == Ok::<bool, Seq<char>>(enabled)
            &&& second.result == Err::<ResponseView, ContractErrorView>(
                if enabled {
                    ContractErrorView::AlreadyEnabled
                } else {
                    ContractErrorView::AlreadyDisabled
                },
            )
        }),
{
}

/// For the administrator `reset` always succeeds. It leaves the four
/// collections empty, whatever they held, keeps the single entries as they
/// were, and emits one `admin_reset` event without attributes.
pub proof fn reset_empties_collections(store: StoreState, caller: Seq<char>)
    requires
        store.is_admin(caller),
    ensures
        ({
            let after = reset_outcome(store, caller);
            &&& after.store.signatures.len() == 0
            &&& after.store.block_hashes.len() == 0
            &&& after.store.block_votes.len() == 0
            &&& after.store.evidences.len() == 0
            &&& after.store.admin == store.admin
            &&& after.store.config == store.config
            &&& after.store.is_enabled == store.is_enabled
            &&& after.result is Ok
            &&& after.result->Ok_0.events.len() == 1
            &&& after.result->Ok_0.events[0] == reset_event()
            &&& reset_event().attributes.len() == 0
        }),
{
}

/// `reset` is idempotent: a second call in a row answers as the first did and
/// leaves the store as the first left it.
pub proof fn reset_is_idempotent(store: StoreState, caller: Seq<char>)
    ensures
        reset_outcome(reset_outcome(store, caller).store, caller) == reset_outcome(store, caller),
{
}

/// For the administrator, with a configuration that can be loaded,
/// `set_commit_block_height_interval` always succeeds, whatever the interval:
/// zero and the interval that is set are taken like any other. It changes the
/// interval and nothing else, and its one event names the interval before and
/// the interval after.
pub proof fn interval_is_replaced(
    store: StoreState,
    caller: Seq<char>,
    commit_block_height_interval: u64,
)
    requires
        store.is_admin(caller),
        store.config is Ok,
    ensures
        ({
            let before = store.config->Ok_0;
            let after = set_commit_block_height_interval_outcome(
                store,
                caller,
                commit_block_height_interval,
            );
            &&& after.store == (StoreState {
                config: Ok(
                    ConfigView {
                        consumer_id: before.consumer_id,
                        activated_height: before.activated_height,
                        commit_block_height_interval,
                    },
                ),
                ..store
            })
            &&& after.result is Ok
            &&& after.result->Ok_0.events.len() == 1
            &&& after.result->Ok_0.events[0] == interval_event(
                before.commit_block_height_interval,
                commit_block_height_interval,
            )
        }),
{
}

/// Setting the same interval twice in a row succeeds both times; the event
/// of the second call names that interval as the one before and as the one
/// after.
pub proof fn same_interval_twice(
    store: StoreState,
    caller: Seq<char>,
    commit_block_height_interval: u64,
)
    requires
        store.is_admin(caller),
        store.config is Ok,
    ensures
        ({
            let first = set_commit_block_height_interval_outcome(
                store,
                caller,
                commit_block_height_interval,
            );
            let second = set_commit_block_height_interval_outcome(
                first.store,
                caller,
                commit_block_height_interval,
            );
            &&& first.result is Ok
            &&& first.store.config->Ok_0.commit_block_height_interval
                == commit_block_height_interval
            &&& second.result is Ok
            &&& second.store == first.store
            &&& second.result->Ok_0.events.len() == 1
            &&& second.result->Ok_0.events[0] == interval_event(
                commit_block_height_interval,
                commit_block_height_interval,
            )
        }),
{
}

} // verus!
