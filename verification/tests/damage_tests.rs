use ptcg_core::damage::DamageCalculator;

#[test]
fn test_damage_calculation() {
    let _calculator = DamageCalculator::new();
    assert!(true);
}
