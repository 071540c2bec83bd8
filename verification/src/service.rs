//! The service that relayed calls end up in: three handlers behind one
//! entry check, a pause switch, and an administrator who can name a successor.
//!
//! The service keeps its own record of the program that may call it and
//! counts the calls it has let through.

use vstd::prelude::*;
use crate::identity::Identity;

verus! {

/// The function id of [`transfer`].
pub const FUNCTION_TRANSFER: u8 = 0;

/// The function id of [`register_token`].
pub const FUNCTION_REGISTER_TOKEN: u8 = 1;

/// The function id of [`create_swap`].
pub const FUNCTION_CREATE_SWAP: u8 = 2;

/// Why the service refused a call.
#[derive(Clone, Copy, Debug, PartialEq, Eq, Structural)]
pub enum ErrorCode {
    /// The caller is not the one that the service has on record.
    Unauthorized,
    /// The service is paused.
    ServicePaused,
}

/// The state of the service.
#[derive(Clone, Copy, Debug, PartialEq, Eq)]
pub struct ServiceState {
    /// The administrator.
    pub admin: Identity,
    /// When the service was initialised.
    pub created_at: i64,
    /// Whether the service is paused.
    pub is_paused: bool,
    /// How many calls the service has let through.
    pub transaction_count: u64,
    /// The program that may call the service.
    pub user_account_program: Identity,
}

/// What a [`ServiceState`] holds.
pub struct ServiceStateView {
    pub admin: Seq<u8>,
    pub created_at: int,
    pub is_paused: bool,
    pub transaction_count: nat,
    pub user_account_program: Seq<u8>,
}

impl View for ServiceState {
    type V = ServiceStateView;

    open spec fn view(&self) -> ServiceStateView {
        ServiceStateView {
            admin: self.admin@,
            created_at: self.created_at as int,
            is_paused: self.is_paused,
            transaction_count: self.transaction_count as nat,
            user_account_program: self.user_account_program@,
        }
    }
}

impl ServiceStateView {
    /// The state after a call from `caller_program` has been admitted, or
    /// why the call is refused: the service must not be paused, and the
    /// caller has to be the program on record. A call that passes is counted;
    /// the counter stops at the largest value it can hold.
    pub open spec fn process(self, caller_program: Seq<u8>) -> Result<ServiceStateView, ErrorCode> {
        if self.is_paused {
            Err(ErrorCode::ServicePaused)
        } else if caller_program != self.user_account_program {
            Err(ErrorCode::Unauthorized)
        } else {
            Ok(
                ServiceStateView {
                    transaction_count: if self.transaction_count < u64::MAX {
                        self.transaction_count + 1
                    } else {
                        self.transaction_count
                    },
                    ..self
                },
            )
        }
    }

    /// The state after `caller` has flipped the pause switch, or the refusal
    /// of a caller that is not the administrator.
    pub open spec fn toggle_pause(self, caller: Seq<u8>) -> Result<ServiceStateView, ErrorCode> {
        if caller != self.admin {
            Err(ErrorCode::Unauthorized)
        } else {
            Ok(ServiceStateView { is_paused: !self.is_paused, ..self })
        }
    }

    /// The state after `caller` has named `new_admin` as administrator, or
    /// the refusal of a caller that is not the administrator.
    pub open spec fn change_admin(self, caller: Seq<u8>, new_admin: Seq<u8>) -> Result<
        ServiceStateView,
        ErrorCode,
    > {
        if caller != self.admin {
            Err(ErrorCode::Unauthorized)
        } else {
            Ok(ServiceStateView { admin: new_admin, ..self })
        }
    }
}

/// What initialising the service works on.
#[derive(Clone, Copy, Debug, PartialEq, Eq)]
pub struct Initialize {
    /// The administrator to be, who signs.
    pub admin: Identity,
    /// The state of the service.
    pub service_state: ServiceState,
    /// The program that may call the service.
    pub user_account_program: Identity,
}

/// What a handler of the service works on.
#[derive(Clone, Copy, Debug, PartialEq, Eq)]
pub struct ProcessTransaction {
    /// The temporary key that signed the relayed call.
    pub temp_key_signer: Identity,
    /// The state of the service.
    pub service_state: ServiceState,
    /// The program that calls.
    pub caller_program: Identity,
    /// The account of the user.
    pub user_account: Identity,
    /// The record that the relay authorised the call on.
    pub auth_data: Identity,
}

/// What an operation of the administrator works on.
#[derive(Clone, Copy, Debug, PartialEq, Eq)]
pub struct AdminOnly {
    /// The caller, who signs.
    pub admin: Identity,
    /// The state of the service.
    pub service_state: ServiceState,
}

/// Initialises the service at the time `now`: the administrator and the
/// calling program of `ctx`, not paused, no call counted.
pub fn initialize(ctx: &mut Initialize, now: i64) -> (r: Result<(), ErrorCode>)
    ensures
        r is Ok,
        final(ctx).service_state@ == (ServiceStateView {
            admin: old(ctx).admin@,
            created_at: now as int,
            is_paused: false,
            transaction_count: 0,
            user_account_program: old(ctx).user_account_program@,
        }),
        *final(ctx) == (Initialize { service_state: final(ctx).service_state, ..*old(ctx) }),
{
    ctx.service_state = ServiceState {
        admin: ctx.admin,
        created_at: now,
        is_paused: false,
        transaction_count: 0,
        user_account_program: ctx.user_account_program,
    };
    Ok(())
}

/// Admits a call and counts it, or refuses it and leaves the state as it
/// is.
fn process(ctx: &mut ProcessTransaction) -> (r: Result<(), ErrorCode>)
    ensures
        old(ctx).service_state@.process(old(ctx).caller_program@) == (match r {
            Ok(()) => Ok(final(ctx).service_state@),
            Err(e) => Err(e),
        }),
        r is Err ==> *final(ctx) == *old(ctx),
        *final(ctx) == (ProcessTransaction { service_state: final(ctx).service_state, ..*old(ctx) }),
{
    proof {
        Identity::lemma_view_injective(ctx.caller_program, ctx.service_state.user_account_program);
    }
    if ctx.service_state.is_paused {
        return Err(ErrorCode::ServicePaused);
    }
    if ctx.caller_program != ctx.service_state.user_account_program {
        return Err(ErrorCode::Unauthorized);
    }
    ctx.service_state.transaction_count = ctx.service_state.transaction_count.saturating_add(1);
    Ok(())
}

/// Handles a transfer of `amount` to `recipient`: the call is admitted
/// and counted, or is refused and leaves the state as it is.
pub fn transfer(ctx: &mut ProcessTransaction, amount: u64, recipient: Identity) -> (r: Result<
    (),
    ErrorCode,
>)
    ensures
        old(ctx).service_state@.process(old(ctx).caller_program@) == (match r {
            Ok(()) => Ok(final(ctx).service_state@),
            Err(e) => Err(e),
        }),
        r is Err ==> *final(ctx) == *old(ctx),
        *final(ctx) == (ProcessTransaction { service_state: final(ctx).service_state, ..*old(ctx) }),
{
    process(ctx)
}

/// Handles the registration of the token `token_mint`: the call is
/// admitted and counted, or is refused and leaves the state as it is.
pub fn register_token(ctx: &mut ProcessTransaction, token_mint: Identity, _token_name: String) -> (r:
    Result<(), ErrorCode>)
    ensures
        old(ctx).service_state@.process(old(ctx).caller_program@) == (match r {
            Ok(()) => Ok(final(ctx).service_state@),
            Err(e) => Err(e),
        }),
        r is Err ==> *final(ctx) == *old(ctx),
        *final(ctx) == (ProcessTransaction { service_state: final(ctx).service_state, ..*old(ctx) }),
{
    process(ctx)
}

/// Handles the creation of a swap of `amount_a` of `token_a` against
/// `amount_b` of `token_b`: the call is admitted and counted, or is
/// refused and leaves the state as it is.
pub fn create_swap(
    ctx: &mut ProcessTransaction,
    token_a: Identity,
    token_b: Identity,
    amount_a: u64,
    amount_b: u64,
) -> (r: Result<(), ErrorCode>)
    ensures
        old(ctx).service_state@.process(old(ctx).caller_program@) == (match r {
            Ok(()) => Ok(final(ctx).service_state@),
            Err(e) => Err(e),
        }),
        r is Err ==> *final(ctx) == *old(ctx),
        *final(ctx) == (ProcessTransaction { service_state: final(ctx).service_state, ..*old(ctx) }),
{
    process(ctx)
}

/// Pauses the service, or resumes it where it is paused. Only the
/// administrator may; any other caller is refused and changes nothing.
pub fn toggle_pause(ctx: &mut AdminOnly) -> (r: Result<(), ErrorCode>)
    ensures
        old(ctx).service_state@.toggle_pause(old(ctx).admin@) == (match r {
            Ok(()) => Ok(final(ctx).service_state@),
            Err(e) => Err(e),
        }),
        r is Err ==> *final(ctx) == *old(ctx),
        *final(ctx) == (AdminOnly { service_state: final(ctx).service_state, ..*old(ctx) }),
{
    proof {
        Identity::lemma_view_injective(ctx.admin, ctx.service_state.admin);
    }
    if ctx.admin != ctx.service_state.admin {
        return Err(ErrorCode::Unauthorized);
    }
    ctx.service_state.is_paused = !ctx.service_state.is_paused;
    Ok(())
}

/// Names `new_admin` as the administrator. Only the administrator may; any
/// other caller is refused and changes nothing.
pub fn change_admin(ctx: &mut AdminOnly, new_admin: Identity) -> (r: Result<(), ErrorCode>)
    ensures
        old(ctx).service_state@.change_admin(old(ctx).admin@, new_admin@) == (match r {
            Ok(()) => Ok(final(ctx).service_state@),
            Err(e) => Err(e),
        }),
        r is Err ==> *final(ctx) == *old(ctx),
        *final(ctx) == (AdminOnly { service_state: final(ctx).service_state, ..*old(ctx) }),
{
    proof {
        Identity::lemma_view_injective(ctx.admin, ctx.service_state.admin);
    }
    if ctx.admin != ctx.service_state.admin {
        return Err(ErrorCode::Unauthorized);
    }
    ctx.service_state.admin = new_admin;
    Ok(())
}

} // verus!
