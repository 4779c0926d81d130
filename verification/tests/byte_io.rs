use inkwell::byte_io::{fill_step, FillStep};

#[test]
fn each_read_outcome_moves_the_field_on_as_stated() {
    assert!(matches!(fill_step(0, 4, Ok(0)), FillStep::EndBeforeField));
    assert!(matches!(fill_step(2, 4, Ok(0)), FillStep::EndInsideField));
    assert!(matches!(fill_step(1, 4, Ok(3)), FillStep::Filled(4)));
    assert!(matches!(fill_step(0, 4, Ok(2)), FillStep::Filled(2)));
    let failure = std::io::Error::new(std::io::ErrorKind::Other, "gone");
    assert!(matches!(fill_step(0, 4, Err(failure)), FillStep::Failed(_)));
}
