use gfx_pipeline::flat;
use gfx_pipeline::forward;
use gfx_pipeline::frame::{action, Action, ClearData, Flavor, Outcome, Stage, ONE};

#[test]
fn a_frame_passes_through_its_stages() {
    let mut stage = Stage::Idle;
    let mut seen = Vec::new();
    for _ in 0..5 {
        stage = stage.advance(Outcome::Done);
        seen.push(stage);
    }
    assert_eq!(seen, vec![Stage::Cleared, Stage::Populated, Stage::Sorted, Stage::Submitted, Stage::Idle]);
}

#[test]
fn a_failure_ends_the_frame() {
    for stage in [Stage::Idle, Stage::Cleared, Stage::Populated, Stage::Sorted, Stage::Submitted] {
        assert_eq!(stage.advance(Outcome::Failed), Stage::Idle);
    }
}

#[test]
fn every_stage_has_its_action() {
    let color = Some([1u32, 2, 3, 4]);
    for flavor in [Flavor::Flat, Flavor::Forward] {
        assert_eq!(action(Stage::Cleared, flavor, color), Action::Populate);
        assert_eq!(action(Stage::Populated, flavor, color), Action::Sort);
        assert_eq!(action(Stage::Sorted, flavor, color), Action::Submit);
        assert_eq!(action(Stage::Submitted, flavor, color), Action::Finish);
        assert_eq!(action(Stage::Cleared, flavor, None), Action::Populate);
    }
}

#[test]
fn a_frame_starts_with_the_lights_and_the_clearing() {
    let color = [1u32, 2, 3, 4];
    assert_eq!(ONE, 1.0f32.to_bits());
    let clear = Some(ClearData { color, depth: 1.0f32.to_bits(), stencil: 0 });
    assert_eq!(
        action(Stage::Idle, Flavor::Forward, Some(color)),
        Action::Prepare { update_lights: true, clear }
    );
    assert_eq!(
        action(Stage::Idle, Flavor::Flat, Some(color)),
        Action::Prepare { update_lights: false, clear }
    );
}

#[test]
fn without_a_background_nothing_is_cleared() {
    assert_eq!(
        action(Stage::Idle, Flavor::Forward, None),
        Action::Prepare { update_lights: true, clear: None }
    );
    assert_eq!(
        action(Stage::Idle, Flavor::Flat, None),
        Action::Prepare { update_lights: false, clear: None }
    );
}

#[test]
fn nothing_is_submitted_after_a_failure() {
    for failing in 0..3 {
        let mut stage = Stage::Idle;
        let mut submitted = false;
        for step in 0..5 {
            if let Action::Submit = action(stage, Flavor::Forward, None) {
                submitted = true;
            }
            let outcome = if step == failing { Outcome::Failed } else { Outcome::Done };
            stage = stage.advance(outcome);
            if outcome == Outcome::Failed {
                break;
            }
        }
        assert!(!submitted);
        assert_eq!(stage, Stage::Idle);
    }
}

#[test]
fn a_pipeline_knows_its_flavor_and_its_background() {
    let mut lit: forward::Pipeline<u32, u32, u32, u32> = forward::Pipeline::new(1, 2, 3, 4);
    let mut plain: flat::Pipeline<u32, u32, u32> = flat::Pipeline::new(1, 2, 4);
    let black = Some(ClearData { color: [0; 4], depth: ONE, stencil: 0 });
    assert_eq!(lit.action(Stage::Idle), Action::Prepare { update_lights: true, clear: black });
    assert_eq!(plain.action(Stage::Idle), Action::Prepare { update_lights: false, clear: black });
    lit.set_background(None);
    plain.set_background(Some([5, 6, 7, 8]));
    assert_eq!(lit.action(Stage::Idle), Action::Prepare { update_lights: true, clear: None });
    assert_eq!(
        plain.action(Stage::Idle),
        Action::Prepare {
            update_lights: false,
            clear: Some(ClearData { color: [5, 6, 7, 8], depth: ONE, stencil: 0 })
        }
    );
    assert_eq!(lit.action(Stage::Sorted), Action::Submit);
    assert_eq!(plain.action(Stage::Cleared), Action::Populate);
}
