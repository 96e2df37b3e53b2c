use qubit_budget::json::preflight;
use qubit_budget::json::preflight_without_input_limit;
use qubit_budget::json::JsonLexicalPreflight;
use qubit_budget::BudgetError;
use qubit_budget::JsonBudget;
use qubit_budget::JsonLimits;
use qubit_budget::JsonSerdeError;
use qubit_budget::ResourceLimit;
use qubit_budget::StructureLimits;
use qubit_budget::StructureResource;

fn unlimited() -> JsonBudget<StructureResource> {
    JsonLimits::new(StructureLimits::new()).budget()
}

fn limited(structure: StructureLimits<StructureResource, usize>) -> JsonBudget<StructureResource> {
    JsonLimits::new(structure).budget()
}

fn is_json_error(result: &Result<(), JsonSerdeError<StructureResource>>) -> bool {
    matches!(result, Err(JsonSerdeError::Json(_)))
}

#[test]
fn valid_documents_pass_an_unlimited_session() {
    let documents: [&[u8]; 12] = [
        b"null",
        b" true ",
        b"false",
        b"0",
        b"-12.5e+3",
        b"\"text\"",
        b"[]",
        b"{}",
        b"[1, [2, {\"a\": null}], \"x\"]",
        b"{\"k\": \"\\u00e9\\ud83d\\ude00\\n\", \"n\": -0.0E1}",
        "\"caf\u{e9} \u{1F600}\"".as_bytes(),
        b"\n\t{ \"a\" : [ ] , \"b\" : { } }\r\n",
    ];
    for document in documents {
        let mut budget = unlimited();
        assert!(preflight(document, &mut budget).is_ok(), "{:?}", std::str::from_utf8(document));
    }
}

#[test]
fn invalid_documents_are_json_errors() {
    let documents: [&[u8]; 20] = [
        b"",
        b"   ",
        b"nul",
        b"nulls",
        b"01",
        b"1.",
        b"1e",
        b"-",
        b"[1,]",
        b"[1 2]",
        b"{\"a\" 1}",
        b"{\"a\": 1,}",
        b"{1: 2}",
        b"\"unterminated",
        b"\"bad \\x escape\"",
        b"\"\\ud800\"",
        b"\"\\udc00\"",
        b"[1] 2",
        b"\"\x01\"",
        b"\"\xc0\x80\"",
    ];
    for document in documents {
        let mut budget = unlimited();
        let result = preflight(document, &mut budget);
        assert!(is_json_error(&result), "{:?}", document);
    }
}

#[test]
fn depth_limit_rejects_nested_values() {
    let mut budget = limited(StructureLimits::builder().max_depth(2).build());
    assert!(preflight(b"[[1]]", &mut budget).is_err());
    let mut budget = limited(StructureLimits::builder().max_depth(2).build());
    assert!(preflight(b"[1, 2]", &mut budget).is_ok());
    let mut budget = limited(StructureLimits::builder().max_depth(2).build());
    match preflight(b"[[1]]", &mut budget) {
        Err(JsonSerdeError::Budget(error)) => {
            assert_eq!(error.resource(), &StructureResource::Depth);
            assert_eq!(error.maximum(), Some(2));
            assert_eq!(error.exact_observed(), Some(3));
        }
        _ => panic!("expected a depth rejection"),
    }
}

#[test]
fn node_limit_counts_every_value() {
    let mut budget = limited(StructureLimits::builder().max_nodes(4).build());
    assert!(preflight(b"{\"a\": [1, 2]}", &mut budget).is_ok());
    assert_eq!(budget.structure().used_nodes(), Some(4));
    let mut budget = limited(StructureLimits::builder().max_nodes(3).build());
    match preflight(b"{\"a\": [1, 2]}", &mut budget) {
        Err(JsonSerdeError::Budget(BudgetError::Insufficient { remaining, requested, .. })) => {
            assert_eq!(remaining, 0);
            assert_eq!(requested, 1);
        }
        _ => panic!("expected a node rejection"),
    }
    assert_eq!(budget.structure().used_nodes(), Some(3));
}

#[test]
fn nodes_charged_before_a_syntax_error_stay_charged() {
    let mut budget = limited(StructureLimits::builder().max_nodes(10).build());
    let result = preflight(b"[1, 2, oops]", &mut budget);
    assert!(is_json_error(&result));
    assert_eq!(budget.structure().used_nodes(), Some(3));
}

#[test]
fn container_and_key_limits_reject_the_first_excess() {
    let mut budget = limited(StructureLimits::builder().max_sequence_items(2).build());
    match preflight(b"[1, 2, 3]", &mut budget) {
        Err(JsonSerdeError::Budget(error)) => {
            assert_eq!(error.resource(), &StructureResource::SequenceItems);
            assert_eq!(error.exact_observed(), Some(3));
        }
        _ => panic!("expected a sequence rejection"),
    }
    let mut budget = limited(StructureLimits::builder().max_map_entries(1).build());
    match preflight(b"{\"a\": 1, \"b\": 2}", &mut budget) {
        Err(JsonSerdeError::Budget(error)) => {
            assert_eq!(error.resource(), &StructureResource::MapEntries);
            assert_eq!(error.exact_observed(), Some(2));
        }
        _ => panic!("expected a map rejection"),
    }
    let mut budget = limited(StructureLimits::builder().max_key_bytes(3).build());
    match preflight(b"{\"caf\\u00e9\": 1}", &mut budget) {
        Err(JsonSerdeError::Budget(error)) => {
            assert_eq!(error.resource(), &StructureResource::KeyBytes);
            assert_eq!(error.exact_observed(), Some(5));
        }
        _ => panic!("expected a key rejection"),
    }
}

#[test]
fn string_and_number_limits_measure_decoded_and_lexical_bytes() {
    let limits = JsonLimits::new(StructureLimits::new())
        .with_string_bytes(ResourceLimit::new(StructureResource::KeyBytes, 4));
    let mut budget = limits.budget();
    assert!(preflight(b"\"\\u00e9\\u00e9\"", &mut budget).is_ok());
    let limits = JsonLimits::new(StructureLimits::new())
        .with_string_bytes(ResourceLimit::new(StructureResource::KeyBytes, 3));
    let mut budget = limits.budget();
    match preflight(b"\"\\ud83d\\ude00\"", &mut budget) {
        Err(JsonSerdeError::Budget(error)) => assert_eq!(error.exact_observed(), Some(4)),
        _ => panic!("expected a string rejection"),
    }
    let limits = JsonLimits::new(StructureLimits::new())
        .with_number_bytes(ResourceLimit::new(StructureResource::Nodes, 3));
    let mut budget = limits.budget();
    match preflight(b"[-1.5]", &mut budget) {
        Err(JsonSerdeError::Budget(error)) => assert_eq!(error.exact_observed(), Some(4)),
        _ => panic!("expected a number rejection"),
    }
}

#[test]
fn input_limit_is_checked_before_scanning() {
    let limits = JsonLimits::new(StructureLimits::builder().max_nodes(1).build())
        .with_input_bytes(ResourceLimit::new(StructureResource::Nodes, 3));
    let mut budget = limits.budget();
    match preflight(b"[1, 2]", &mut budget) {
        Err(JsonSerdeError::Budget(error)) => assert_eq!(error.exact_observed(), Some(6)),
        _ => panic!("expected an input rejection"),
    }
    assert_eq!(budget.structure().used_nodes(), Some(0));
    let limits = JsonLimits::new(StructureLimits::new())
        .with_input_bytes(ResourceLimit::new(StructureResource::Nodes, 3));
    let mut budget = limits.budget();
    assert!(preflight_without_input_limit(b"[1, 2]", &mut budget).is_ok());
}

#[test]
fn root_depth_shifts_every_depth() {
    let mut budget = limited(StructureLimits::builder().max_depth(3).build());
    assert!(JsonLexicalPreflight::at_depth(3).inspect(b"1", &mut budget).is_ok());
    let mut budget = limited(StructureLimits::builder().max_depth(3).build());
    assert!(JsonLexicalPreflight::at_depth(3).inspect(b"[1]", &mut budget).is_err());
    let mut budget = limited(StructureLimits::builder().max_depth(1).build());
    assert!(JsonLexicalPreflight::new().inspect(b"7", &mut budget).is_ok());
}

#[test]
fn deep_nesting_is_scanned_without_recursion() {
    let depth = 100_000;
    let mut document = vec![b'['; depth];
    document.extend(std::iter::repeat(b']').take(depth));
    let mut budget = limited(StructureLimits::builder().max_nodes(depth).build());
    assert!(preflight(&document, &mut budget).is_ok());
    assert_eq!(budget.structure().used_nodes(), Some(depth));
    let mut budget = limited(StructureLimits::builder().max_depth(depth - 1).build());
    match preflight(&document, &mut budget) {
        Err(JsonSerdeError::Budget(error)) => assert_eq!(error.exact_observed(), Some(depth)),
        _ => panic!("expected a depth rejection at the innermost array"),
    }
}
