use agent_registry::{
    accept_task, activate_agent, complete_task, create_task, deactivate_agent, rate_agent,
    register_agent, update_agent, AgentAction, AgentStatus, CompleteTask, CreateTask, EscrowRef,
    Ledger, Pubkey, RateAgent, RegisterAgent, RegistryError, TaskStatus, UpdateAgent,
};

fn key(n: u64) -> Pubkey {
    Pubkey(n, 0, 0, 0)
}

fn s(text: &str) -> String {
    text.to_string()
}

fn register(ledger: &mut Ledger, owner: Pubkey, pricing: u64) -> Result<(), RegistryError> {
    register_agent(
        ledger,
        &RegisterAgent { owner },
        s("agent"),
        vec![s("coding"), s("email")],
        pricing,
        s("https://example.com/agent.json"),
    )
    .map(|_| ())
}

fn escrow_ref(client: Pubkey, task_id: &str) -> EscrowRef {
    EscrowRef { client, task_id: s(task_id) }
}

fn action(client: Pubkey, task_id: &str, agent: Pubkey, signer: Pubkey) -> AgentAction {
    AgentAction { task_escrow: escrow_ref(client, task_id), agent_profile: agent, agent_owner: signer }
}

fn completion(client: Pubkey, task_id: &str, agent: Pubkey, signer: Pubkey) -> CompleteTask {
    CompleteTask { task_escrow: escrow_ref(client, task_id), agent_profile: agent, agent_owner: signer }
}

fn rating(client: Pubkey, task_id: &str, agent: Pubkey, signer: Pubkey) -> RateAgent {
    RateAgent { task_escrow: escrow_ref(client, task_id), agent_profile: agent, client: signer }
}

/// A ledger with agent A registered and client C funded with 1000 lamports.
fn setup() -> (Ledger, Pubkey, Pubkey) {
    let mut ledger = Ledger::new();
    let agent = key(1);
    let client = key(2);
    register(&mut ledger, agent, 100).unwrap();
    ledger.deposit(client, 1000).unwrap();
    (ledger, agent, client)
}

/// Brings task `task_id` of `client` to Completed.
fn completed_task(ledger: &mut Ledger, agent: Pubkey, client: Pubkey, task_id: &str, amount: u64) {
    create_task(ledger, &CreateTask { agent_profile: agent, client }, s(task_id), amount, 7).unwrap();
    accept_task(ledger, &action(client, task_id, agent, agent)).unwrap();
    complete_task(ledger, &completion(client, task_id, agent, agent)).unwrap();
}

#[test]
fn end_to_end_scenario() {
    let (mut ledger, agent, client) = setup();
    let profile = ledger.profile(agent).unwrap();
    assert_eq!(profile.pricing_lamports, 100);
    assert_eq!(profile.status, AgentStatus::Active);
    assert!(ledger.profile(client).is_none());

    let created = create_task(&mut ledger, &CreateTask { agent_profile: agent, client }, s("t1"), 500, 42)
        .unwrap();
    assert_eq!(created.amount, 500);
    assert_eq!(created.task_id, "t1");
    let t1 = escrow_ref(client, "t1");
    let escrow = ledger.escrow(&t1).unwrap();
    assert_eq!(escrow.status, TaskStatus::Funded);
    assert_eq!(escrow.created_at, 42);
    assert_eq!(escrow.agent, agent);
    assert_eq!(ledger.balance(client), 500);
    assert_eq!(ledger.custody(&t1), Some(500));

    accept_task(&mut ledger, &action(client, "t1", agent, agent)).unwrap();
    assert_eq!(ledger.escrow(&t1).unwrap().status, TaskStatus::InProgress);

    let before = ledger.balance(agent);
    let done = complete_task(&mut ledger, &completion(client, "t1", agent, agent)).unwrap();
    assert_eq!(done.amount, 500);
    assert_eq!(ledger.escrow(&t1).unwrap().status, TaskStatus::Completed);
    assert_eq!(ledger.custody(&t1), Some(0));
    assert_eq!(ledger.balance(agent), before + 500);
    assert_eq!(ledger.profile(agent).unwrap().tasks_completed, 1);

    let rated = rate_agent(&mut ledger, &rating(client, "t1", agent, client), 4).unwrap();
    assert_eq!(rated.new_reputation, 400);
    let profile = ledger.profile(agent).unwrap();
    assert_eq!(profile.total_ratings, 1);
    assert_eq!(profile.rating_sum, 4);
    assert_eq!(profile.reputation_score, 400);

    // The same client may rate the same escrow again: nothing guards against it.
    let rated = rate_agent(&mut ledger, &rating(client, "t1", agent, client), 5).unwrap();
    assert_eq!(rated.new_reputation, 450);
    let profile = ledger.profile(agent).unwrap();
    assert_eq!(profile.total_ratings, 2);
    assert_eq!(profile.rating_sum, 9);
    assert_eq!(profile.reputation_score, 450);
}

#[test]
fn reputation_is_truncated_average_times_100() {
    let (mut ledger, agent, client) = setup();
    completed_task(&mut ledger, agent, client, "t1", 10);
    assert_eq!(ledger.profile(agent).unwrap().reputation_score, 0);
    for (r, expected) in [(5u8, 500u64), (4, 450), (4, 433), (1, 350)] {
        let ev = rate_agent(&mut ledger, &rating(client, "t1", agent, client), r).unwrap();
        assert_eq!(ev.new_reputation, expected);
        let p = ledger.profile(agent).unwrap();
        assert_eq!(p.reputation_score, p.rating_sum * 100 / p.total_ratings);
    }
}

#[test]
fn register_rejects_taken_address() {
    let (mut ledger, agent, _) = setup();
    assert_eq!(register(&mut ledger, agent, 5), Err(RegistryError::AddressInUse));
    assert_eq!(ledger.profile(agent).unwrap().pricing_lamports, 100);
}

#[test]
fn register_field_limits() {
    let mut ledger = Ledger::new();
    let ok = register_agent(
        &mut ledger,
        &RegisterAgent { owner: key(1) },
        "n".repeat(64),
        vec!["c".repeat(32); 8],
        1,
        "u".repeat(200),
    );
    assert!(ok.is_ok());
    let p = ledger.profile(key(1)).unwrap();
    assert_eq!(p.capabilities.len(), 8);
    assert_eq!(p.reputation_score, 0);
    assert_eq!(p.tasks_completed, 0);

    let attempt = |ledger: &mut Ledger, name: String, caps: Vec<String>, pricing: u64, uri: String| {
        register_agent(ledger, &RegisterAgent { owner: key(9) }, name, caps, pricing, uri).map(|_| ())
    };
    assert_eq!(
        attempt(&mut ledger, "n".repeat(65), vec![], 1, s("")),
        Err(RegistryError::NameTooLong)
    );
    assert_eq!(
        attempt(&mut ledger, s("a"), vec![s("c"); 9], 1, s("")),
        Err(RegistryError::TooManyCapabilities)
    );
    assert_eq!(
        attempt(&mut ledger, s("a"), vec![s("c"), "c".repeat(33)], 1, s("")),
        Err(RegistryError::CapabilityTooLong)
    );
    assert_eq!(
        attempt(&mut ledger, s("a"), vec![], 1, "u".repeat(201)),
        Err(RegistryError::MetadataUriTooLong)
    );
    assert_eq!(attempt(&mut ledger, s("a"), vec![], 0, s("")), Err(RegistryError::InvalidPricing));
    // Checks run in order: the name is reported before the pricing.
    assert_eq!(
        attempt(&mut ledger, "n".repeat(65), vec![], 0, s("")),
        Err(RegistryError::NameTooLong)
    );
    // A multi-byte name is measured in bytes.
    assert_eq!(
        attempt(&mut ledger, "é".repeat(33), vec![], 1, s("")),
        Err(RegistryError::NameTooLong)
    );
    assert!(ledger.profile(key(9)).is_none());
}

#[test]
fn update_replaces_only_supplied_fields() {
    let (mut ledger, agent, _) = setup();
    let ctx = UpdateAgent { agent_profile: agent, owner: agent };
    update_agent(&mut ledger, &ctx, Some(s("renamed")), None, Some(250), None).unwrap();
    let p = ledger.profile(agent).unwrap();
    assert_eq!(p.name, "renamed");
    assert_eq!(p.pricing_lamports, 250);
    assert_eq!(p.capabilities, vec![s("coding"), s("email")]);
    assert_eq!(p.metadata_uri, "https://example.com/agent.json");

    update_agent(&mut ledger, &ctx, None, Some(vec![s("trading")]), None, Some(s("ipfs://x"))).unwrap();
    let p = ledger.profile(agent).unwrap();
    assert_eq!(p.capabilities, vec![s("trading")]);
    assert_eq!(p.metadata_uri, "ipfs://x");
    assert_eq!(p.name, "renamed");
}

#[test]
fn update_rejects_bad_fields_without_change() {
    let (mut ledger, agent, _) = setup();
    let ctx = UpdateAgent { agent_profile: agent, owner: agent };
    assert_eq!(
        update_agent(&mut ledger, &ctx, Some(s("ok")), None, Some(0), None).map(|_| ()),
        Err(RegistryError::InvalidPricing)
    );
    assert_eq!(ledger.profile(agent).unwrap().name, "agent");
    assert_eq!(
        update_agent(&mut ledger, &ctx, None, Some(vec![s("c"); 9]), None, None).map(|_| ()),
        Err(RegistryError::TooManyCapabilities)
    );
    assert_eq!(
        update_agent(&mut ledger, &ctx, None, None, None, Some("u".repeat(201))).map(|_| ()),
        Err(RegistryError::MetadataUriTooLong)
    );
    assert_eq!(
        update_agent(&mut ledger, &ctx, Some("n".repeat(65)), None, None, None).map(|_| ()),
        Err(RegistryError::NameTooLong)
    );
    assert_eq!(
        update_agent(&mut ledger, &ctx, None, Some(vec!["c".repeat(33)]), None, None).map(|_| ()),
        Err(RegistryError::CapabilityTooLong)
    );
}

#[test]
fn only_owner_changes_profile() {
    let (mut ledger, agent, client) = setup();
    let stranger = UpdateAgent { agent_profile: agent, owner: client };
    assert_eq!(
        update_agent(&mut ledger, &stranger, Some(s("x")), None, None, None).map(|_| ()),
        Err(RegistryError::Unauthorized)
    );
    assert_eq!(deactivate_agent(&mut ledger, &stranger).map(|_| ()), Err(RegistryError::Unauthorized));
    let missing = UpdateAgent { agent_profile: key(77), owner: key(77) };
    assert_eq!(activate_agent(&mut ledger, &missing).map(|_| ()), Err(RegistryError::AccountNotFound));
    assert_eq!(ledger.profile(agent).unwrap().status, AgentStatus::Active);
}

#[test]
fn deactivate_and_activate_are_idempotent() {
    let (mut ledger, agent, _) = setup();
    let ctx = UpdateAgent { agent_profile: agent, owner: agent };
    deactivate_agent(&mut ledger, &ctx).unwrap();
    let ev = deactivate_agent(&mut ledger, &ctx).unwrap();
    assert_eq!(ev.agent, agent);
    assert_eq!(ledger.profile(agent).unwrap().status, AgentStatus::Inactive);
    activate_agent(&mut ledger, &ctx).unwrap();
    activate_agent(&mut ledger, &ctx).unwrap();
    assert_eq!(ledger.profile(agent).unwrap().status, AgentStatus::Active);
}

#[test]
fn deactivated_agent_cannot_be_hired() {
    let (mut ledger, agent, client) = setup();
    deactivate_agent(&mut ledger, &UpdateAgent { agent_profile: agent, owner: agent }).unwrap();
    let r = create_task(&mut ledger, &CreateTask { agent_profile: agent, client }, s("t1"), 10, 0);
    assert_eq!(r.map(|_| ()), Err(RegistryError::AgentNotActive));
    assert!(ledger.profile(agent).is_some());
    assert!(ledger.escrow(&escrow_ref(client, "t1")).is_none());
    assert_eq!(ledger.balance(client), 1000);
}

#[test]
fn create_task_fails_for_inactive_agent_whatever_the_inputs() {
    let (mut ledger, agent, client) = setup();
    deactivate_agent(&mut ledger, &UpdateAgent { agent_profile: agent, owner: agent }).unwrap();
    for (task_id, amount) in [(s("a"), 1u64), (s("b"), 0), ("x".repeat(65), 5), (s("c"), 5000)] {
        let r = create_task(&mut ledger, &CreateTask { agent_profile: agent, client }, task_id, amount, 0);
        assert!(r.is_err());
    }
    assert_eq!(ledger.balance(client), 1000);
}

#[test]
fn create_task_errors() {
    let (mut ledger, agent, client) = setup();
    let ctx = CreateTask { agent_profile: agent, client };
    assert_eq!(
        create_task(&mut ledger, &ctx, "x".repeat(65), 10, 0).map(|_| ()),
        Err(RegistryError::TaskIdTooLong)
    );
    assert_eq!(create_task(&mut ledger, &ctx, s("t"), 0, 0).map(|_| ()), Err(RegistryError::InvalidAmount));
    assert_eq!(
        create_task(&mut ledger, &ctx, s("t"), 1001, 0).map(|_| ()),
        Err(RegistryError::InsufficientFunds)
    );
    let nobody = CreateTask { agent_profile: key(55), client };
    assert_eq!(
        create_task(&mut ledger, &nobody, s("t"), 10, 0).map(|_| ()),
        Err(RegistryError::AccountNotFound)
    );
    assert!(create_task(&mut ledger, &ctx, "x".repeat(64), 1000, 0).is_ok());
    assert_eq!(ledger.balance(client), 0);
}

#[test]
fn same_task_id_cannot_be_reused() {
    let (mut ledger, agent, client) = setup();
    let ctx = CreateTask { agent_profile: agent, client };
    create_task(&mut ledger, &ctx, s("t1"), 300, 1).unwrap();
    let again = create_task(&mut ledger, &ctx, s("t1"), 200, 2);
    assert_eq!(again.map(|_| ()), Err(RegistryError::AddressInUse));
    let t1 = escrow_ref(client, "t1");
    let escrow = ledger.escrow(&t1).unwrap();
    assert_eq!(escrow.amount, 300);
    assert_eq!(escrow.created_at, 1);
    assert_eq!(ledger.custody(&t1), Some(300));
    assert_eq!(ledger.balance(client), 700);
    // Another client may use the same identifier.
    ledger.deposit(key(3), 50).unwrap();
    assert!(create_task(&mut ledger, &CreateTask { agent_profile: agent, client: key(3) }, s("t1"), 50, 0).is_ok());
}

#[test]
fn accept_only_from_funded() {
    let (mut ledger, agent, client) = setup();
    create_task(&mut ledger, &CreateTask { agent_profile: agent, client }, s("t1"), 100, 0).unwrap();
    let ctx = action(client, "t1", agent, agent);
    assert!(accept_task(&mut ledger, &ctx).is_ok());
    assert_eq!(accept_task(&mut ledger, &ctx).map(|_| ()), Err(RegistryError::InvalidTaskStatus));
    assert_eq!(ledger.escrow(&escrow_ref(client, "t1")).unwrap().status, TaskStatus::InProgress);
}

#[test]
fn agent_action_authorization() {
    let (mut ledger, agent, client) = setup();
    register(&mut ledger, key(4), 10).unwrap();
    create_task(&mut ledger, &CreateTask { agent_profile: agent, client }, s("t1"), 100, 0).unwrap();
    assert_eq!(
        accept_task(&mut ledger, &action(client, "t1", key(4), key(4))).map(|_| ()),
        Err(RegistryError::AgentMismatch)
    );
    assert_eq!(
        accept_task(&mut ledger, &action(client, "t1", agent, key(4))).map(|_| ()),
        Err(RegistryError::Unauthorized)
    );
    assert_eq!(
        accept_task(&mut ledger, &action(client, "nope", agent, agent)).map(|_| ()),
        Err(RegistryError::AccountNotFound)
    );
    assert_eq!(
        complete_task(&mut ledger, &completion(client, "t1", agent, key(4))).map(|_| ()),
        Err(RegistryError::Unauthorized)
    );
    assert_eq!(ledger.escrow(&escrow_ref(client, "t1")).unwrap().status, TaskStatus::Funded);
}

#[test]
fn complete_only_from_in_progress() {
    let (mut ledger, agent, client) = setup();
    create_task(&mut ledger, &CreateTask { agent_profile: agent, client }, s("t1"), 250, 0).unwrap();
    let ctx = completion(client, "t1", agent, agent);
    assert_eq!(complete_task(&mut ledger, &ctx).map(|_| ()), Err(RegistryError::InvalidTaskStatus));
    accept_task(&mut ledger, &action(client, "t1", agent, agent)).unwrap();
    let before = ledger.balance(agent);
    complete_task(&mut ledger, &ctx).unwrap();
    assert_eq!(ledger.balance(agent), before + 250);
    assert_eq!(ledger.custody(&escrow_ref(client, "t1")), Some(0));
    assert_eq!(ledger.profile(agent).unwrap().tasks_completed, 1);
    assert_eq!(complete_task(&mut ledger, &ctx).map(|_| ()), Err(RegistryError::InvalidTaskStatus));
    assert_eq!(ledger.balance(agent), before + 250);
    assert_eq!(ledger.profile(agent).unwrap().tasks_completed, 1);
}

#[test]
fn complete_task_reports_overflow() {
    let (mut ledger, agent, client) = setup();
    ledger.deposit(agent, u64::MAX - 10).unwrap();
    create_task(&mut ledger, &CreateTask { agent_profile: agent, client }, s("t1"), 11, 0).unwrap();
    accept_task(&mut ledger, &action(client, "t1", agent, agent)).unwrap();
    assert_eq!(
        complete_task(&mut ledger, &completion(client, "t1", agent, agent)).map(|_| ()),
        Err(RegistryError::ArithmeticOverflow)
    );
    assert_eq!(ledger.custody(&escrow_ref(client, "t1")), Some(11));
    assert_eq!(ledger.deposit(agent, 11), Err(RegistryError::ArithmeticOverflow));
}

#[test]
fn rating_preconditions() {
    let (mut ledger, agent, client) = setup();
    create_task(&mut ledger, &CreateTask { agent_profile: agent, client }, s("t1"), 100, 0).unwrap();
    let ctx = rating(client, "t1", agent, client);
    assert_eq!(rate_agent(&mut ledger, &ctx, 3).map(|_| ()), Err(RegistryError::InvalidTaskStatus));
    accept_task(&mut ledger, &action(client, "t1", agent, agent)).unwrap();
    assert_eq!(rate_agent(&mut ledger, &ctx, 3).map(|_| ()), Err(RegistryError::InvalidTaskStatus));
    complete_task(&mut ledger, &completion(client, "t1", agent, agent)).unwrap();
    assert_eq!(rate_agent(&mut ledger, &ctx, 0).map(|_| ()), Err(RegistryError::InvalidRating));
    assert_eq!(rate_agent(&mut ledger, &ctx, 6).map(|_| ()), Err(RegistryError::InvalidRating));
    assert_eq!(
        rate_agent(&mut ledger, &rating(client, "t1", agent, key(8)), 3).map(|_| ()),
        Err(RegistryError::Unauthorized)
    );
    register(&mut ledger, key(4), 10).unwrap();
    assert_eq!(
        rate_agent(&mut ledger, &rating(client, "t1", key(4), client), 3).map(|_| ()),
        Err(RegistryError::AgentMismatch)
    );
    assert_eq!(ledger.profile(agent).unwrap().total_ratings, 0);
    assert_eq!(rate_agent(&mut ledger, &ctx, 1).unwrap().new_reputation, 100);
    assert_eq!(rate_agent(&mut ledger, &ctx, 5).unwrap().new_reputation, 300);
}

#[test]
fn error_messages() {
    assert_eq!(RegistryError::InvalidRating.message(), "Rating must be between 1 and 5");
    assert_eq!(RegistryError::AgentMismatch.message(), "Agent profile does not match escrow");
}
