use ptcg_core::error::{ActionResult, EngineError, EngineResult};

#[test]
fn test_error_display() {
    let err = EngineError::NotEnoughEnergy { needed: "RR".to_string(), available: "R".to_string() };
    assert!(err.message().contains("Not enough energy"));
}

#[test]
fn test_action_result() {
    let result: EngineResult<i32> = Some(42).illegal("should not fail");
    assert_eq!(result.unwrap(), 42);

    let result: EngineResult<i32> = None.illegal("should fail");
    assert!(result.is_err());
}

#[test]
fn error_messages() {
    assert_eq!(EngineError::invalid_action("x").message(), "Invalid action: x");
    let err = EngineError::NotEnoughEnergy { needed: "RR".to_string(), available: "R".to_string() };
    assert_eq!(err.message(), "Not enough energy: need RR, have R");
    let r: EngineResult<i32> = None.illegal("why");
    assert_eq!(r.unwrap_err().message(), "Illegal action: why");
}
