//! Inter-actor call material: credential requests, management request
//! shapes, uniform error translation, and the provisioning flow.

use boards::actor::ActorId;
use boards::call::{
    CallError, CanisterSettings, CreateCanisterArgs, InstallMode, NFTPayload, Value,
    citizen_nft_egg, create_canister_in, install_config, visa_nft_egg,
};
use boards::provision::{Provision, ProvisionStatus, ProvisionStep};
use boards::state::BoardState;

fn settings() -> CanisterSettings {
    CanisterSettings {
        controller: Some(ActorId::new(1)),
        compute_allocation: None,
        memory_allocation: None,
        freezing_threshold: None,
    }
}

#[test]
fn visa_request_names_the_board_visa_property() {
    let owner = ActorId::new(12);
    let egg = visa_nft_egg(owner);
    let NFTPayload::Payload(bytes) = egg.payload;
    assert_eq!(bytes, vec![0u8]);
    assert_eq!(egg.content_type, "text");
    assert_eq!(egg.owner, owner);
    assert_eq!(egg.properties.len(), 1);
    assert_eq!(egg.properties[0].name, "board visa");
    assert_eq!(egg.properties[0].value, Value::Empty);
    assert!(egg.properties[0].immutable);
    assert!(egg.is_private);
}

#[test]
fn citizenship_request_is_mutable_and_untyped() {
    let citizen = ActorId::new(21);
    let egg = citizen_nft_egg(citizen);
    let NFTPayload::Payload(bytes) = egg.payload;
    assert_eq!(bytes, vec![0u8]);
    assert_eq!(egg.content_type, "");
    assert_eq!(egg.owner, citizen);
    assert_eq!(egg.properties.len(), 1);
    assert_eq!(egg.properties[0].name, "citizenship");
    assert!(!egg.properties[0].immutable);
    assert!(egg.is_private);
}

#[test]
fn board_visa_flow_targets_the_registrar() {
    let registrar = ActorId::new(9);
    let state = BoardState::init(ActorId::new(1), ActorId::new(2), registrar);
    let own_identity = ActorId::new(40);
    let (target, egg) = state.get_board_visa(own_identity);
    assert_eq!(target, registrar);
    assert_eq!(egg.owner, own_identity);
    assert_eq!(egg.properties[0].name, "board visa");
}

#[test]
fn call_errors_wrap_the_reject_signal_unmodified() {
    let e = CallError::from_reject(4, String::from("canister rejected the message"));
    assert_eq!(e.code, 4);
    assert_eq!(e.message, "canister rejected the message");
}

#[test]
fn call_error_text_carries_code_and_message_verbatim() {
    let e = CallError::from_reject(5, String::from("install_code failed"));
    assert_eq!(e.describe(), "An error happened during the call: 5: install_code failed");
    let zero = CallError::from_reject(0, String::from(""));
    assert_eq!(zero.describe(), "An error happened during the call: 0: ");
    let two_digits = CallError::from_reject(42, String::from("no route"));
    assert_eq!(two_digits.describe(), "An error happened during the call: 42: no route");
    let three_digits = CallError::from_reject(255, String::from("trapped"));
    assert_eq!(three_digits.describe(), "An error happened during the call: 255: trapped");
    let round = CallError::from_reject(100, String::from("x"));
    assert_eq!(round.describe(), "An error happened during the call: 100: x");
}

#[test]
fn creation_request_always_sends_settings_and_full_budget() {
    let args = CreateCanisterArgs { cycles: 200_000_000_000, settings: settings() };
    let (request, payment) = create_canister_in(args);
    assert_eq!(request.settings, Some(settings()));
    assert_eq!(payment, 200_000_000_000);
}

#[test]
fn installation_request_is_a_plain_install() {
    let canister = ActorId::new(33);
    let config = install_config(canister, vec![1, 2, 3], vec![9]);
    assert_eq!(config.mode, InstallMode::Install);
    assert_eq!(config.canister_id, canister);
    assert_eq!(config.wasm_module, vec![1, 2, 3]);
    assert_eq!(config.arg, vec![9]);
}

#[test]
fn provisioning_runs_create_install_start_in_order() {
    let mut flow = Provision::begin(settings(), 1_000, vec![0xca, 0xfe], vec![]);
    assert_eq!(flow.next_step(), Some(ProvisionStep::Create));
    assert_eq!(flow.created_actor(), None);

    let created = ActorId::new(70);
    flow.on_create(Ok(created));
    assert_eq!(flow.next_step(), Some(ProvisionStep::Install));
    assert_eq!(flow.created_actor(), Some(created));

    flow.on_install(Ok(()));
    assert_eq!(flow.next_step(), Some(ProvisionStep::Start));

    flow.on_start(Ok(()));
    assert_eq!(flow.next_step(), None);
    assert_eq!(flow.created_actor(), Some(created));
    assert_eq!(flow.status, ProvisionStatus::Complete { canister: created });
}

#[test]
fn install_failure_keeps_created_id_and_never_starts() {
    let mut flow = Provision::begin(settings(), 1_000, vec![0xca, 0xfe], vec![]);
    let created = ActorId::new(70);
    flow.on_create(Ok(created));

    flow.on_install(Err(CallError::from_reject(5, String::from("install_code failed"))));
    // The creation step's actor id is still reported in the error context.
    assert_eq!(flow.created_actor(), Some(created));
    // The start step is never attempted.
    assert_eq!(flow.next_step(), None);
    match flow.status {
        ProvisionStatus::Failed { step, created: reported, error } => {
            assert_eq!(step, ProvisionStep::Install);
            assert_eq!(reported, Some(created));
            assert_eq!(error.code, 5);
            assert_eq!(error.message, "install_code failed");
        },
        _ => panic!("flow should have failed at the install step"),
    }
}

#[test]
fn create_failure_reports_no_actor() {
    let mut flow = Provision::begin(settings(), 1_000, vec![], vec![]);
    flow.on_create(Err(CallError::from_reject(3, String::from("out of cycles"))));
    assert_eq!(flow.created_actor(), None);
    assert_eq!(flow.next_step(), None);
}

#[test]
fn start_failure_still_reports_the_created_actor() {
    let mut flow = Provision::begin(settings(), 1_000, vec![], vec![]);
    let created = ActorId::new(71);
    flow.on_create(Ok(created));
    flow.on_install(Ok(()));
    flow.on_start(Err(CallError::from_reject(2, String::from("unreachable"))));
    assert_eq!(flow.created_actor(), Some(created));
    assert_eq!(flow.next_step(), None);
}
