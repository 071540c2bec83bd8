use aa_relay::service::{
    change_admin, create_swap, initialize, register_token, toggle_pause, transfer, AdminOnly,
    ErrorCode, Initialize, ProcessTransaction, ServiceState, FUNCTION_CREATE_SWAP,
    FUNCTION_REGISTER_TOKEN, FUNCTION_TRANSFER,
};
use aa_relay::Identity;

fn party(byte: u8) -> Identity {
    Identity::new_from_array([byte; 32])
}

fn state(is_paused: bool, transaction_count: u64) -> ServiceState {
    ServiceState {
        admin: party(1),
        created_at: 50,
        is_paused,
        transaction_count,
        user_account_program: party(2),
    }
}

fn call(caller: u8, service_state: ServiceState) -> ProcessTransaction {
    ProcessTransaction {
        temp_key_signer: party(3),
        service_state,
        caller_program: party(caller),
        user_account: party(4),
        auth_data: party(5),
    }
}

#[test]
fn function_ids_of_the_service() {
    assert_eq!(FUNCTION_TRANSFER, 0);
    assert_eq!(FUNCTION_REGISTER_TOKEN, 1);
    assert_eq!(FUNCTION_CREATE_SWAP, 2);
}

#[test]
fn initialize_sets_every_field() {
    let mut ctx = Initialize {
        admin: party(1),
        service_state: ServiceState {
            admin: party(9),
            created_at: 9,
            is_paused: true,
            transaction_count: 9,
            user_account_program: party(9),
        },
        user_account_program: party(2),
    };
    assert_eq!(initialize(&mut ctx, 50), Ok(()));
    assert_eq!(ctx.service_state, state(false, 0));
    assert_eq!(ctx.admin, party(1));
    assert_eq!(ctx.user_account_program, party(2));
}

#[test]
fn handlers_count_the_calls_they_let_through() {
    let mut ctx = call(2, state(false, 0));
    assert_eq!(transfer(&mut ctx, 10, party(7)), Ok(()));
    assert_eq!(ctx, call(2, state(false, 1)));
    assert_eq!(register_token(&mut ctx, party(8), String::from("token")), Ok(()));
    assert_eq!(ctx, call(2, state(false, 2)));
    assert_eq!(create_swap(&mut ctx, party(8), party(9), 1, 2), Ok(()));
    assert_eq!(ctx, call(2, state(false, 3)));
}

#[test]
fn handlers_refuse_while_paused() {
    let mut ctx = call(2, state(true, 4));
    assert_eq!(transfer(&mut ctx, 10, party(7)), Err(ErrorCode::ServicePaused));
    assert_eq!(register_token(&mut ctx, party(8), String::new()), Err(ErrorCode::ServicePaused));
    assert_eq!(create_swap(&mut ctx, party(8), party(9), 1, 2), Err(ErrorCode::ServicePaused));
    assert_eq!(ctx, call(2, state(true, 4)));
}

#[test]
fn handlers_refuse_another_caller() {
    let mut ctx = call(6, state(false, 4));
    assert_eq!(transfer(&mut ctx, 10, party(7)), Err(ErrorCode::Unauthorized));
    assert_eq!(register_token(&mut ctx, party(8), String::new()), Err(ErrorCode::Unauthorized));
    assert_eq!(create_swap(&mut ctx, party(8), party(9), 1, 2), Err(ErrorCode::Unauthorized));
    assert_eq!(ctx, call(6, state(false, 4)));
}

#[test]
fn pause_is_reported_before_the_caller() {
    let mut ctx = call(6, state(true, 4));
    assert_eq!(transfer(&mut ctx, 10, party(7)), Err(ErrorCode::ServicePaused));
}

#[test]
fn call_counter_stops_at_its_largest_value() {
    let mut ctx = call(2, state(false, u64::MAX - 1));
    assert_eq!(transfer(&mut ctx, 10, party(7)), Ok(()));
    assert_eq!(ctx.service_state.transaction_count, u64::MAX);
    assert_eq!(transfer(&mut ctx, 10, party(7)), Ok(()));
    assert_eq!(ctx.service_state.transaction_count, u64::MAX);
}

#[test]
fn administrator_pauses_and_resumes() {
    let mut ctx = AdminOnly { admin: party(1), service_state: state(false, 4) };
    assert_eq!(toggle_pause(&mut ctx), Ok(()));
    assert_eq!(ctx.service_state, state(true, 4));
    assert_eq!(toggle_pause(&mut ctx), Ok(()));
    assert_eq!(ctx.service_state, state(false, 4));
}

#[test]
fn only_the_administrator_pauses() {
    let mut ctx = AdminOnly { admin: party(2), service_state: state(false, 4) };
    assert_eq!(toggle_pause(&mut ctx), Err(ErrorCode::Unauthorized));
    assert_eq!(ctx.service_state, state(false, 4));
}

#[test]
fn administrator_names_a_successor() {
    let mut ctx = AdminOnly { admin: party(1), service_state: state(false, 4) };
    assert_eq!(change_admin(&mut ctx, party(8)), Ok(()));
    let mut expected = state(false, 4);
    expected.admin = party(8);
    assert_eq!(ctx.service_state, expected);
    assert_eq!(change_admin(&mut ctx, party(1)), Err(ErrorCode::Unauthorized));
    assert_eq!(ctx.service_state, expected);
    assert_eq!(toggle_pause(&mut ctx), Err(ErrorCode::Unauthorized));
    ctx.admin = party(8);
    assert_eq!(toggle_pause(&mut ctx), Ok(()));
    assert!(ctx.service_state.is_paused);
}
