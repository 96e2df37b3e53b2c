use std::io::Write as _;

use qubit_budget::json::settle_output;
use qubit_budget::json::JsonOutputWriter;
use qubit_budget::JsonLimits;
use qubit_budget::JsonSerdeError;
use qubit_budget::ResourceLimit;
use qubit_budget::StructureLimits;
use qubit_budget::StructureResource;

#[test]
fn json_limits_keep_each_point_limit() {
    let limits = JsonLimits::new(StructureLimits::builder().max_depth(3).build())
        .with_input_bytes(ResourceLimit::new(StructureResource::Nodes, 100))
        .with_output_bytes(ResourceLimit::new(StructureResource::Nodes, 50));
    assert_eq!(limits.input_bytes_limit().map(|limit| limit.maximum()), Some(100));
    assert_eq!(limits.output_bytes_limit().map(|limit| limit.maximum()), Some(50));
    assert!(limits.string_bytes_limit().is_none());
    assert_eq!(limits.structure().max_depth(), Some(3));
    let budget = limits.budget();
    assert!(budget.check_input_bytes(100).is_ok());
    assert!(budget.check_input_bytes(101).is_err());
    assert!(budget.check_output_bytes(51).is_err());
    assert!(budget.check_string_bytes(usize::MAX).is_ok());
}

#[test]
fn output_writer_refuses_growth_beyond_the_output_limit() {
    let budget = JsonLimits::new(StructureLimits::new())
        .with_output_bytes(ResourceLimit::new(StructureResource::Nodes, 5))
        .budget();
    let mut writer = JsonOutputWriter::new(&budget);
    assert_eq!(writer.write(b"[1,").expect("three bytes fit"), 3);
    assert!(writer.write(b"2,3]").is_err());
    assert!(writer.write(b"2]").is_ok());
    match writer.into_result(Ok(())) {
        Err(JsonSerdeError::Budget(error)) => assert_eq!(error.exact_observed(), Some(7)),
        _ => panic!("the recorded violation wins"),
    }
    let mut writer = JsonOutputWriter::new(&budget);
    writer.write_all(b"[1,2]").expect("five bytes fit");
    match writer.into_result(Ok(())) {
        Ok(bytes) => assert_eq!(bytes, b"[1,2]".to_vec()),
        Err(_) => panic!("no violation was recorded"),
    }
}

#[test]
fn settling_output_charges_the_produced_document() {
    let output_budget = JsonLimits::new(StructureLimits::new()).budget();
    let mut writer = JsonOutputWriter::new(&output_budget);
    writer.write_all(b"[1,[2]]").expect("no output limit");
    let mut budget = JsonLimits::new(StructureLimits::builder().max_depth(2).build()).budget();
    match settle_output(writer, Ok(()), &mut budget) {
        Err(JsonSerdeError::Budget(error)) => assert_eq!(error.exact_observed(), Some(3)),
        _ => panic!("the nested array exceeds depth two"),
    }
    let mut writer = JsonOutputWriter::new(&output_budget);
    writer.write_all(b"[1,2]").expect("no output limit");
    let mut budget = JsonLimits::new(StructureLimits::builder().max_nodes(3).build()).budget();
    match settle_output(writer, Ok(()), &mut budget) {
        Ok(bytes) => assert_eq!(bytes, b"[1,2]".to_vec()),
        Err(_) => panic!("three values fit"),
    }
    assert_eq!(budget.structure().used_nodes(), Some(3));
}
