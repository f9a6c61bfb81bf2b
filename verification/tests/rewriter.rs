use lsystem3d::LsysError;
use lsystem3d::lsystem::{LSystem, LSystemRule, Production};
use lsystem3d::vec3::Vec3Fx;

const FX: i64 = 65536;

fn rule(
    seed: &str,
    productions: Vec<(char, &str)>,
    iterations: u32,
    angle_degrees: f64,
) -> LSystemRule {
    LSystemRule {
        name: "test".to_string(),
        seed: seed.to_string(),
        angle: (angle_degrees * FX as f64) as i64,
        iterations,
        rules: productions
            .into_iter()
            .map(|(symbol, replacement)| Production {
                symbol,
                replacement: replacement.to_string(),
            })
            .collect(),
        step_length: None,
        depth_based: None,
        palette: Vec::new(),
        description: String::new(),
    }
}

fn expanded(system: &LSystem) -> String {
    system.current_string.iter().collect()
}

#[test]
fn koch_one_pass() {
    let mut system = LSystem::new(rule("F", vec![('F', "F+F-F-F+F")], 1, 90.0));
    system.generate().expect("within the length cap");
    assert_eq!(expanded(&system), "F+F-F-F+F");
}

#[test]
fn koch_two_pass() {
    let mut system = LSystem::new(rule("F", vec![('F', "F+F-F-F+F")], 2, 90.0));
    system.generate().expect("within the length cap");
    let out = expanded(&system);
    // Each of the five `F`s becomes nine symbols and the four operators
    // stay: 5 * 9 + 4 symbols.
    assert_eq!(out.chars().count(), 49);
    assert_eq!(out, "F+F-F-F+F+F+F-F-F+F-F+F-F-F+F-F+F-F-F+F+F+F-F-F+F");
}

#[test]
fn empty_rules_is_identity() {
    let mut system = LSystem::new(rule("X", vec![], 5, 90.0));
    system.generate().expect("within the length cap");
    assert_eq!(expanded(&system), "X");
}

#[test]
fn zero_iterations_returns_seed() {
    let mut system = LSystem::new(rule("F+F[X]", vec![('F', "FF")], 0, 45.0));
    system.generate().expect("within the length cap");
    assert_eq!(expanded(&system), "F+F[X]");
}

#[test]
fn unmatched_symbols_pass_through() {
    let mut system = LSystem::new(rule("AXA", vec![('A', "AB")], 1, 60.0));
    system.generate().expect("within the length cap");
    assert_eq!(expanded(&system), "ABXAB");
}

#[test]
fn composition_one_more_pass() {
    // Expanding k + 1 passes equals one further pass on the k-pass result.
    let mut two = LSystem::new(rule("F", vec![('F', "F+F")], 2, 90.0));
    two.generate().expect("within the length cap");
    let mut three = LSystem::new(rule("F", vec![('F', "F+F")], 3, 90.0));
    three.generate().expect("within the length cap");
    let mut one_more = LSystem::new(rule(&expanded(&two), vec![('F', "F+F")], 1, 90.0));
    one_more.generate().expect("within the length cap");
    assert_eq!(expanded(&three), expanded(&one_more));
}

#[test]
fn growth_bound_reports_and_keeps_state() {
    // Tenfold growth per pass crosses the ten-million cap on the eighth pass.
    let mut system = LSystem::new(rule("F", vec![('F', "FFFFFFFFFF")], 8, 90.0));
    assert_eq!(system.generate(), Err(LsysError::BoundExceeded));
    assert_eq!(expanded(&system), "F");
}

#[test]
fn validate_accepts_reasonable_rule() {
    let mut ok = rule("F", vec![('F', "F+F")], 3, 25.0);
    ok.step_length = Some(FX);
    ok.palette = vec![Vec3Fx { x: 0, y: FX, z: 0 }];
    assert_eq!(lsystem3d::lsystem::validate(&ok), Ok(()));
}

#[test]
fn validate_rejects_empty_seed_with_iterations() {
    let bad = rule("", vec![('F', "F")], 1, 25.0);
    assert_eq!(lsystem3d::lsystem::validate(&bad), Err(LsysError::EmptySeed));
    let fine = rule("", vec![('F', "F")], 0, 25.0);
    assert_eq!(lsystem3d::lsystem::validate(&fine), Ok(()));
}

#[test]
fn validate_rejects_nonpositive_step() {
    let mut bad = rule("F", vec![], 0, 25.0);
    bad.step_length = Some(0);
    assert_eq!(
        lsystem3d::lsystem::validate(&bad),
        Err(LsysError::NonPositiveStep)
    );
}

#[test]
fn validate_rejects_out_of_range_palette() {
    let mut bad = rule("F", vec![], 0, 25.0);
    bad.palette = vec![Vec3Fx { x: FX + 1, y: 0, z: 0 }];
    assert_eq!(
        lsystem3d::lsystem::validate(&bad),
        Err(LsysError::PaletteOutOfRange)
    );
}

#[test]
fn error_messages_name_the_field() {
    assert!(LsysError::NonPositiveStep.message().contains("step_length"));
    assert!(LsysError::PaletteOutOfRange.message().contains("palette"));
}
