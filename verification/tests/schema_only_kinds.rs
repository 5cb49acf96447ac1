use streamline_operator::conditions::{BRANCH_FINALIZER, MEMORY_FINALIZER};
use streamline_operator::controllers::branch::{BranchDecision, BranchReport, BranchRequest};
use streamline_operator::controllers::contract::{
    ContractDecision, ContractReport, ContractRequest,
};
use streamline_operator::controllers::memory::{MemoryDecision, MemoryReport, MEMORY_TIERS};
use streamline_operator::controllers::topic::ServerReply;
use streamline_operator::controllers::{
    BranchController, ContractController, MemoryController, NextReconcile, ReconcileVerdict,
};
use streamline_operator::{
    BranchPhase, BranchSpec, ClusterSpec, ClusterStatus, ContractPhase, ContractSpec, MemoryPhase,
    MemorySpec, MemoryTiers, StreamlineBranch, StreamlineCluster, StreamlineContract,
    StreamlineMemory,
};

fn ready_cluster() -> StreamlineCluster {
    let mut cluster = StreamlineCluster::new("prod", ClusterSpec::default());
    cluster.metadata.namespace = Some("elsewhere".to_string());
    cluster.status = Some(ClusterStatus {
        ready_replicas: 1,
        broker_endpoints: vec!["b".to_string()],
        ..Default::default()
    });
    cluster
}

fn reply(code: u16, status: &str, body: &str) -> ServerReply {
    ServerReply {
        code,
        status: status.to_string(),
        body: body.to_string(),
    }
}

// -- Branches ----------------------------------------------------------

fn branch() -> StreamlineBranch {
    let mut branch = StreamlineBranch::new(
        "experiment",
        BranchSpec {
            parent: Some("main".to_string()),
            ..BranchSpec::new("prod")
        },
    );
    branch.metadata.namespace = Some("team".to_string());
    branch
}

#[test]
fn test_branch_controller() {
    let mut resource = branch();
    assert!(BranchController::needs_finalizer(&resource));
    assert_eq!(BranchController::decide(&resource), BranchDecision::LookUpCluster);
    resource.metadata.finalizers = vec![BRANCH_FINALIZER.to_string()];
    assert!(!BranchController::needs_finalizer(&resource));
    resource.metadata.deleting = true;
    assert_eq!(BranchController::decide(&resource), BranchDecision::CleanUp);
    assert_eq!(
        BranchController::deletion_url(&resource, &ready_cluster()),
        "http://prod-0.prod-headless.team.svc:9094/api/v1/branches/experiment"
    );
}

#[test]
fn a_branch_is_created_on_a_ready_cluster() {
    assert_eq!(
        BranchController::decide_on_cluster(&branch(), Some(&ready_cluster())),
        BranchDecision::Create(
            "http://prod-0.prod-headless.team.svc:9094/api/v1/branches".to_string(),
            BranchRequest {
                name: "experiment".to_string(),
                parent: Some("main".to_string()),
                description: None,
            },
        )
    );
    assert_eq!(
        BranchController::decide_on_cluster(&branch(), None),
        BranchDecision::Finish(
            BranchReport::Failed("Cluster prod not found".to_string()),
            NextReconcile::After(30),
            ReconcileVerdict::Uncounted,
        )
    );
    let waiting = StreamlineCluster::new("prod", ClusterSpec::default());
    assert_eq!(
        BranchController::decide_on_cluster(&branch(), Some(&waiting)),
        BranchDecision::Finish(
            BranchReport::Pending("Waiting for cluster to be ready".to_string()),
            NextReconcile::After(10),
            ReconcileVerdict::Uncounted,
        )
    );
}

#[test]
fn the_creation_time_comes_from_the_body() {
    let active = |created| {
        BranchDecision::Finish(
            BranchReport::Active(created),
            NextReconcile::After(60),
            ReconcileVerdict::Success,
        )
    };
    let created = reply(201, "201 Created", r#"{"created_at_ms": 1700000000000}"#);
    assert_eq!(BranchController::decide_on_reply(&branch(), &created), active(Some(1700000000000)));
    let silent = reply(200, "200 OK", r#"{"created_at_ms": "soon"}"#);
    assert_eq!(BranchController::decide_on_reply(&branch(), &silent), active(None));
    let conflict = reply(409, "409 Conflict", r#"{"created_at_ms": 5}"#);
    assert_eq!(BranchController::decide_on_reply(&branch(), &conflict), active(None));
    let refused = reply(500, "500 Internal Server Error", "boom");
    assert_eq!(
        BranchController::decide_on_reply(&branch(), &refused),
        BranchDecision::Finish(
            BranchReport::Failed(
                "Internal error: Failed to create branch experiment \
                 (HTTP 500 Internal Server Error): boom"
                    .to_string()
            ),
            NextReconcile::After(30),
            ReconcileVerdict::Uncounted,
        )
    );
    assert_eq!(
        BranchController::decide_on_failure(&branch(), "refused"),
        BranchDecision::Finish(
            BranchReport::Failed(
                "Internal error: HTTP request to create branch experiment failed: refused"
                    .to_string()
            ),
            NextReconcile::After(30),
            ReconcileVerdict::Uncounted,
        )
    );
}

#[test]
fn branch_reports_become_statuses() {
    let active = BranchController::status_of_at(&BranchReport::Active(Some(5)), "t0");
    assert_eq!(active.phase, BranchPhase::Ready);
    assert!(active.ready);
    assert_eq!(active.created_at_ms, Some(5));
    assert_eq!(active.conditions.len(), 2);
    assert_eq!(active.conditions[0].type_, "Active");
    assert_eq!(active.conditions[1].reason.as_deref(), Some("NotFrozen"));
    let failed = BranchController::status_of(&BranchReport::Failed("x".to_string()));
    assert_eq!(failed.phase, BranchPhase::Failed);
    assert_eq!(failed.message.as_deref(), Some("x"));
    assert_eq!(failed.conditions.len(), 1);
    let pending = BranchController::status_of_at(&BranchReport::Pending("y".to_string()), "t0");
    assert_eq!(pending.phase, BranchPhase::Pending);
    assert_eq!(pending.conditions[0].reason.as_deref(), Some("Pending"));
}

// -- Contracts ---------------------------------------------------------

fn contract() -> StreamlineContract {
    StreamlineContract::new(
        "orders",
        ContractSpec {
            bind_topics: vec!["orders".to_string()],
            ..ContractSpec::new("prod", "{}")
        },
    )
}

fn contract_request() -> ContractRequest {
    ContractRequest {
        name: "orders".to_string(),
        schema: "{}".to_string(),
        compatibility: "BACKWARD".to_string(),
        bind_topics: vec!["orders".to_string()],
    }
}

#[test]
fn test_contract_controller() {
    let resource = contract();
    assert!(ContractController::needs_finalizer(&resource));
    assert_eq!(ContractController::decide(&resource), ContractDecision::LookUpCluster);
    assert_eq!(
        ContractController::deletion_url(&resource, &ready_cluster()),
        "http://prod-0.prod-headless.default.svc:9094/api/v1/contracts/orders"
    );
}

#[test]
fn a_contract_is_validated_and_then_applied() {
    let resource = contract();
    let cluster = ready_cluster();
    assert_eq!(
        ContractController::decide_on_cluster(&resource, Some(&cluster)),
        ContractDecision::Validate(
            "http://prod-0.prod-headless.default.svc:9094/api/v1/contracts/validate".to_string(),
            contract_request(),
        )
    );
    let valid = reply(200, "200 OK", "");
    assert_eq!(
        ContractController::decide_on_validation(&resource, &cluster, &valid),
        ContractDecision::Apply(
            "http://prod-0.prod-headless.default.svc:9094/api/v1/contracts".to_string(),
            contract_request(),
        )
    );
    for code in [201, 409] {
        assert_eq!(
            ContractController::decide_on_application(&resource, &reply(code, "", "")),
            ContractDecision::Finish(
                ContractReport::Applied(vec!["orders".to_string()]),
                NextReconcile::After(60),
                ReconcileVerdict::Success,
            )
        );
    }
}

#[test]
fn contract_failures_are_told_apart() {
    let resource = contract();
    let cluster = ready_cluster();
    let failed = |message: &str| {
        ContractDecision::Finish(
            ContractReport::Failed(message.to_string()),
            NextReconcile::After(30),
            ReconcileVerdict::Uncounted,
        )
    };
    // A conflict is no valid contract.
    let conflict = reply(409, "409 Conflict", "taken");
    assert_eq!(
        ContractController::decide_on_validation(&resource, &cluster, &conflict),
        failed("Reconciliation error: Contract validation failed (HTTP 409 Conflict): taken")
    );
    assert_eq!(
        ContractController::decide_on_validation_failure(&resource, "down"),
        failed("Internal error: HTTP request to validate contract orders failed: down")
    );
    assert_eq!(
        ContractController::decide_on_application(&resource, &reply(400, "400 Bad Request", "no")),
        failed("Internal error: Failed to apply contract orders (HTTP 400 Bad Request): no")
    );
    assert_eq!(
        ContractController::decide_on_application_failure(&resource, "down"),
        failed("Internal error: HTTP request to apply contract orders failed: down")
    );
    assert_eq!(
        ContractController::decide_on_cluster(&resource, None),
        failed("Cluster prod not found")
    );
}

#[test]
fn contract_reports_become_statuses() {
    let applied = ContractController::status_of_at(
        ContractReport::Applied(vec!["orders".to_string()]),
        "t0",
    );
    assert_eq!(applied.phase, ContractPhase::Active);
    assert!(applied.registered);
    assert_eq!(applied.bound_topics, vec!["orders"]);
    assert_eq!(applied.conditions[1].reason.as_deref(), Some("SchemaValid"));
    let failed = ContractController::status_of(ContractReport::Failed("x".to_string()));
    assert!(!failed.registered);
    assert!(failed.bound_topics.is_empty());
    assert_eq!(failed.conditions[1].reason.as_deref(), Some("ValidationFailed"));
    let pending = ContractController::status_of(ContractReport::Pending("y".to_string()));
    assert_eq!(pending.phase, ContractPhase::Pending);
}

// -- Memories ----------------------------------------------------------

fn memory() -> StreamlineMemory {
    StreamlineMemory::new("test-memory", MemorySpec::new("agent-1", "acme", "prod"))
}

#[test]
fn test_memory_controller() {
    let mut resource = memory();
    assert!(MemoryController::needs_finalizer(&resource));
    resource.metadata.finalizers = vec![MEMORY_FINALIZER.to_string()];
    assert!(!MemoryController::needs_finalizer(&resource));
    assert_eq!(MemoryController::decide(&resource), MemoryDecision::LookUpCluster);
}

#[test]
fn test_topic_name_generation() {
    // Verify topic naming convention
    let memory = memory();
    assert_eq!(
        MemoryController::topic_name(&memory, "episodic"),
        "_memory.acme.agent-1.episodic"
    );
    assert_eq!(
        MemoryController::topic_name(&memory, "semantic"),
        "_memory.acme.agent-1.semantic"
    );
}

#[test]
fn test_retention_ms() {
    assert_eq!(MemoryController::retention_ms(30), 2_592_000_000);
    assert_eq!(MemoryController::retention_ms(-1), -1);
    assert_eq!(MemoryController::retention_ms(0), 0);
}

#[test]
fn retention_has_an_end_that_can_be_told() {
    let tiers = |days| MemoryTiers {
        procedural_retention_days: days,
        ..MemoryTiers::default()
    };
    assert!(MemoryController::retentions_fit(&tiers(106_751_991_167)));
    assert!(!MemoryController::retentions_fit(&tiers(106_751_991_168)));
    assert!(MemoryController::retentions_fit(&tiers(i64::MIN)));
    assert_eq!(
        MemoryController::retention_ms(106_751_991_167),
        9_223_372_036_828_800_000
    );
}

#[test]
fn every_tier_is_provisioned_and_deleted() {
    let resource = memory();
    let cluster = ready_cluster();
    let mut decision = MemoryController::decide_on_cluster(&resource, Some(&cluster));
    let mut created = Vec::new();
    while let MemoryDecision::CreateTopic(tier, url, request) = decision {
        assert_eq!(tier, created.len());
        assert_eq!(request.name, format!("_memory.acme.agent-1.{}", MEMORY_TIERS[tier]));
        assert_eq!((request.partitions, request.replication_factor), (1, 1));
        assert_eq!(request.cleanup_policy, "compact,delete");
        created.push((format!("{url}/{}", request.name), request.retention_ms));
        decision =
            MemoryController::decide_on_reply(&resource, &cluster, tier, &reply(409, "", ""));
    }
    assert_eq!(
        decision,
        MemoryDecision::Finish(
            MemoryReport::Ready,
            NextReconcile::After(60),
            ReconcileVerdict::Success,
        )
    );
    let retentions: Vec<Option<&str>> = created.iter().map(|(_, r)| r.as_deref()).collect();
    assert_eq!(retentions, vec![Some("2592000000"), Some("31536000000"), None]);
    let urls: Vec<String> = created.into_iter().map(|(url, _)| url).collect();
    assert_eq!(MemoryController::deletion_urls(&resource, &cluster), urls);
}

#[test]
fn a_refused_tier_ends_the_reconcile() {
    let resource = memory();
    let refused = reply(500, "500 Internal Server Error", "boom");
    assert_eq!(
        MemoryController::decide_on_reply(&resource, &ready_cluster(), 1, &refused),
        MemoryDecision::Finish(
            MemoryReport::Failed(
                "Internal error: Failed to create memory topic _memory.acme.agent-1.semantic \
                 (HTTP 500 Internal Server Error): boom"
                    .to_string()
            ),
            NextReconcile::After(30),
            ReconcileVerdict::Uncounted,
        )
    );
    assert_eq!(
        MemoryController::decide_on_failure(&resource, 2, "down"),
        MemoryDecision::Finish(
            MemoryReport::Failed(
                "Internal error: HTTP request to create memory topic \
                 _memory.acme.agent-1.procedural failed: down"
                    .to_string()
            ),
            NextReconcile::After(30),
            ReconcileVerdict::Uncounted,
        )
    );
}

#[test]
fn memory_reports_become_statuses() {
    let ready = MemoryController::status_of_at(&MemoryReport::Ready, "t0");
    assert_eq!(ready.phase, MemoryPhase::Ready);
    assert_eq!(ready.message.as_deref(), Some("Memory topics provisioned successfully"));
    assert_eq!(ready.conditions[1].reason.as_deref(), Some("AllTiersProvisioned"));
    let failed = MemoryController::status_of(&MemoryReport::Failed("x".to_string()));
    assert!(!failed.ready);
    assert_eq!(failed.conditions[1].reason.as_deref(), Some("ProvisioningFailed"));
    let pending = MemoryController::status_of(&MemoryReport::Pending("y".to_string()));
    assert_eq!(pending.phase, MemoryPhase::Pending);
}
