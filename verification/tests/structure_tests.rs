use qubit_budget::ResourceLimit;
use qubit_budget::StructureLimits;
use qubit_budget::StructureLimitsBuilder;
use qubit_budget::StructureResource;

#[test]
fn default_limits_configure_nothing() {
    let limits: StructureLimits = StructureLimits::default();
    assert_eq!(limits.max_depth(), None);
    assert_eq!(limits.max_nodes(), None);
    assert_eq!(limits.max_sequence_items(), None);
    assert_eq!(limits.max_map_entries(), None);
    assert_eq!(limits.max_key_bytes(), None);
    let builder: StructureLimitsBuilder = StructureLimitsBuilder::default();
    assert_eq!(StructureLimits::from(builder), limits);
}

#[test]
fn builder_keeps_the_last_limit_of_each_dimension() {
    let limits = StructureLimits::builder()
        .max_depth(4)
        .max_depth(2)
        .max_nodes(10)
        .key_bytes_limit(ResourceLimit::new(StructureResource::KeyBytes, 16))
        .build();
    assert_eq!(limits.max_depth(), Some(2));
    assert_eq!(limits.max_nodes(), Some(10));
    assert_eq!(limits.max_key_bytes(), Some(16));
    let rebuilt = limits.into_builder().max_sequence_items(3).build();
    assert_eq!(rebuilt.max_depth(), Some(2));
    assert_eq!(rebuilt.max_sequence_items(), Some(3));
    let shortcut = StructureLimits::new().with_max_map_entries(5);
    assert_eq!(shortcut.max_map_entries(), Some(5));
}

#[test]
fn structure_budget_checks_and_charges_nodes() {
    let limits = StructureLimits::builder().max_depth(2).max_nodes(2).max_sequence_items(1).build();
    let mut budget = limits.budget();
    assert!(budget.has_nodes_limit());
    assert_eq!(budget.remaining_nodes(), Some(2));
    budget.enter_node(1).expect("depth one fits");
    let error = budget.enter_node(3).expect_err("depth three exceeds two");
    assert_eq!(error.resource(), &StructureResource::Depth);
    assert_eq!(budget.used_nodes(), Some(1));
    let error = budget.enter_sequence(2, 2).expect_err("two items exceed one");
    assert_eq!(error.resource(), &StructureResource::SequenceItems);
    assert_eq!(budget.used_nodes(), Some(1));
    budget.enter_sequence(2, 1).expect("one item fits");
    let error = budget.charge_node().expect_err("no node is left");
    assert_eq!(error.remaining(), Some(0));
    assert_eq!(error.requested(), Some(1));
    assert_eq!(budget.remaining_nodes(), Some(0));
}

#[test]
fn an_unlimited_structure_budget_never_counts_nodes() {
    let limits: StructureLimits = StructureLimits::new();
    let mut budget = limits.budget();
    assert!(!budget.has_nodes_limit());
    budget.charge_nodes(usize::MAX).expect("nothing is counted");
    assert_eq!(budget.used_nodes(), None);
    budget.enter_map(1000, 1000).expect("nothing is limited");
    assert!(budget.check_key_bytes(usize::MAX).is_ok());
}

#[test]
fn a_node_rejection_reports_the_node_limit_resource() {
    let mut budget = StructureLimits::builder().max_nodes(2).build().budget();
    budget.charge_node().expect("the first node fits");
    budget.charge_node().expect("the second node fits");
    assert_eq!(budget.used_nodes(), Some(2));
    match budget.charge_node() {
        Err(qubit_budget::BudgetError::Insufficient { resource, limit, remaining, requested }) => {
            assert_eq!(resource, StructureResource::Nodes);
            assert_eq!(limit, 2);
            assert_eq!(remaining, 0);
            assert_eq!(requested, 1);
        }
        _ => panic!("expected a node rejection"),
    }
    assert_eq!(budget.used_nodes(), Some(2));
    assert_eq!(budget.remaining_nodes(), Some(0));
}
