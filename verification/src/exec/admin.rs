use crate::decimal::{decimal, to_decimal};
use crate::error::{ContractError, ContractErrorView};
use crate::msg::MessageInfo;
use crate::results::{AttributeView, Event, EventView, Response, ResponseView};
use crate::state::config::ConfigView;
use crate::state::store::{Store, StoreState};
use vstd::prelude::*;

verus! {

/// What an operation leaves behind: the store after it, and its answer.
pub struct Outcome {
    pub store: StoreState,
    pub result: Result<ResponseView, ContractErrorView>,
}

/// The outcome of an operation that fails with `error`: the store stays as it
/// was.
pub open spec fn refused(store: StoreState, error: ContractErrorView) -> Outcome {
    Outcome { store, result: Err(error) }
}

/// Mathematical value of an operation's answer.
pub open spec fn answer_view(result: Result<Response, ContractError>) -> Result<
    ResponseView,
    ContractErrorView,
> {
    match result {
        Ok(response) => Ok(response@),
        Err(error) => Err(error@),
    }
}

/// Who may proceed with an operation: the administrator passes, anybody else
/// is `Unauthorized`, and nobody passes while the administrator's entry
/// cannot be loaded.
pub open spec fn admin_check(store: StoreState, caller: Seq<char>) -> Result<(), ContractErrorView> {
    match store.admin {
        Err(reason) => Err(ContractErrorView::StorageError(reason)),
        Ok(_) => if store.is_admin(caller) {
            Ok(())
        } else {
            Err(ContractErrorView::Unauthorized)
        },
    }
}

/// What `set_enabled` does. Once the caller has passed, the switch is loaded;
/// asking for the state it is in is an error, anything else is saved without
/// an event.
pub open spec fn set_enabled_outcome(store: StoreState, caller: Seq<char>, enabled: bool) -> Outcome {
    match admin_check(store, caller) {
        Err(error) => refused(store, error),
        Ok(_) => match store.is_enabled {
            Err(reason) => refused(store, ContractErrorView::StorageError(reason)),
            Ok(current) => if current == enabled {
                refused(
                    store,
                    if enabled {
                        ContractErrorView::AlreadyEnabled
                    } else {
                        ContractErrorView::AlreadyDisabled
                    },
                )
            } else {
                Outcome {
                    store: StoreState { is_enabled: Ok(enabled), ..store },
                    result: Ok(ResponseView::empty()),
                }
            },
        },
    }
}

/// The event that `reset` emits.
pub open spec fn reset_event() -> EventView {
    EventView { ty: "admin_reset"@, attributes: Seq::empty() }
}

/// What `reset` does. Once the caller has passed, the four collections are
/// emptied, whatever they held, and one event says so.
pub open spec fn reset_outcome(store: StoreState, caller: Seq<char>) -> Outcome {
    match admin_check(store, caller) {
        Err(error) => refused(store, error),
        Ok(_) => Outcome {
            store: StoreState {
                signatures: Seq::empty(),
                block_hashes: Seq::empty(),
                block_votes: Seq::empty(),
                evidences: Seq::empty(),
                ..store
            },
            result: Ok(ResponseView { events: seq![reset_event()] }),
        },
    }
}

/// The event that `set_commit_block_height_interval` emits: the interval
/// before and the interval after, each in decimal.
pub open spec fn interval_event(old_interval: u64, new_interval: u64) -> EventView {
    EventView {
        ty: "admin_set_commit_block_height_interval"@,
        attributes: seq![
            AttributeView {
                key: "old_commit_block_height_interval"@,
                value: decimal(old_interval as nat),
            },
            AttributeView {
                key: "commit_block_height_interval"@,
                value: decimal(new_interval as nat),
            },
        ],
    }
}

/// What `set_commit_block_height_interval` does. Once the caller has passed,
/// the configuration is loaded and saved again with the new interval,
/// whatever it is, and one event names both intervals.
pub open spec fn set_commit_block_height_interval_outcome(
    store: StoreState,
    caller: Seq<char>,
    commit_block_height_interval: u64,
) -> Outcome {
    match admin_check(store, caller) {
        Err(error) => refused(store, error),
        Ok(_) => match store.config {
            Err(reason) => refused(store, ContractErrorView::StorageError(reason)),
            Ok(config) => Outcome {
                store: StoreState {
                    config: Ok(ConfigView { commit_block_height_interval, ..config }),
                    ..store
                },
                result: Ok(
                    ResponseView {
                        events: seq![
                            interval_event(
                                config.commit_block_height_interval,
                                commit_block_height_interval,
                            ),
                        ],
                    },
                ),
            },
        },
    }
}

/// Lets the administrator pass and nobody else.
pub fn check_admin(store: &Store, info: MessageInfo) -> (result: Result<(), ContractError>)
    ensures
        match admin_check(store@, info.sender@) {
            Ok(_) => result is Ok,
            Err(error) => result is Err && result->Err_0@ == error,
        },
{
    match store.is_admin(&info.sender) {
        Err(e) => Err(ContractError::from(e)),
        Ok(false) => Err(ContractError::Unauthorized),
        Ok(true) => Ok(()),
    }
}

/// Switches the gadget on or off. Only the administrator may; asking for the
/// state that the gadget is in is an error. Nothing is emitted.
pub fn set_enabled(store: &mut Store, info: MessageInfo, enabled: bool) -> (result: Result<
    Response,
    ContractError,
>)
    ensures
        final(store)@ == set_enabled_outcome(old(store)@, info.sender@, enabled).store,
        answer_view(result) == set_enabled_outcome(old(store)@, info.sender@, enabled).result,
        result is Err ==> *final(store) == *old(store),
        old(store).well_formed() ==> final(store).well_formed(),
{
    check_admin(store, info)?;
    let current = match store.load_enabled() {
        Ok(current) => current,
        Err(e) => {
            return Err(ContractError::from(e));
        },
    };
    if current == enabled {
        if enabled {
            return Err(ContractError::AlreadyEnabled);
        } else {
            return Err(ContractError::AlreadyDisabled);
        }
    }
    store.save_enabled(enabled);
    Ok(Response::default())
}

/// Clears the four collections of the gadget. Only the administrator may.
pub fn reset(store: &mut Store, info: MessageInfo) -> (result: Result<Response, ContractError>)
    ensures
        final(store)@ == reset_outcome(old(store)@, info.sender@).store,
        answer_view(result) == reset_outcome(old(store)@, info.sender@).result,
        result is Err ==> *final(store) == *old(store),
        old(store).well_formed() ==> final(store).well_formed(),
{
    check_admin(store, info)?;
    store.signatures.clear();
    store.block_hashes.clear();
    store.block_votes.clear();
    store.evidences.clear();

    let res = Response::default().add_event(Event::new("admin_reset"));
    assert(res@.events =~= seq![reset_event()]);
    Ok(res)
}

/// Changes the interval at which block heights are committed. Only the
/// administrator may. Any interval is taken, zero and the one that is set
/// included.
pub fn set_commit_block_height_interval(
    store: &mut Store,
    info: MessageInfo,
    commit_block_height_interval: u64,
) -> (result: Result<Response, ContractError>)
    ensures
        final(store)@ == set_commit_block_height_interval_outcome(
            old(store)@,
            info.sender@,
            commit_block_height_interval,
        ).store,
        answer_view(result) == set_commit_block_height_interval_outcome(
            old(store)@,
            info.sender@,
            commit_block_height_interval,
        ).result,
        result is Err ==> *final(store) == *old(store),
        old(store).well_formed() ==> final(store).well_formed(),
{
    check_admin(store, info)?;
    let mut config = match store.load_config() {
        Ok(config) => config,
        Err(e) => {
            return Err(ContractError::from(e));
        },
    };
    let old_commit_block_height_interval: u64 = config.commit_block_height_interval;
    config.commit_block_height_interval = commit_block_height_interval;

    store.save_config(config);

    let event = Event::new("admin_set_commit_block_height_interval").add_attribute(
        "old_commit_block_height_interval",
        to_decimal(old_commit_block_height_interval).as_str(),
    ).add_attribute(
        "commit_block_height_interval",
        to_decimal(commit_block_height_interval).as_str(),
    );
    assert(event@.attributes =~= interval_event(
        old_commit_block_height_interval,
        commit_block_height_interval,
    ).attributes);
    let res = Response::default().add_event(event);
    assert(res@.events =~= seq![
        interval_event(old_commit_block_height_interval, commit_block_height_interval),
    ]);
    Ok(res)
}

} // verus!
