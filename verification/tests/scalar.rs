use lsystem3d::editor::Editor;
use lsystem3d::fixed::{FX_ONE, FX_PI_HALF, cos_sin, deg_to_rad, fx_div, fx_mul, isqrt};
use lsystem3d::main_menu::{MenuAction, MenuState, execute_selected_item, select_next,
    select_previous};

#[test]
fn quarter_turns_are_exact() {
    assert_eq!(cos_sin(0), (FX_ONE, 0));
    assert_eq!(cos_sin(FX_PI_HALF), (0, FX_ONE));
    assert_eq!(cos_sin(2 * FX_PI_HALF), (-FX_ONE, 0));
    assert_eq!(cos_sin(3 * FX_PI_HALF), (0, -FX_ONE));
    assert_eq!(cos_sin(4 * FX_PI_HALF), (FX_ONE, 0));
}

#[test]
fn degree_conversion_hits_the_quarter_turn() {
    assert_eq!(deg_to_rad(90 * FX_ONE), FX_PI_HALF);
    assert_eq!(deg_to_rad(180 * FX_ONE), 2 * FX_PI_HALF);
    assert_eq!(deg_to_rad(0), 0);
}

#[test]
fn sine_of_thirty_degrees_is_close_to_half() {
    let (_, s) = cos_sin(deg_to_rad(30 * FX_ONE));
    assert!((s - FX_ONE / 2).abs() < 8);
}

#[test]
fn fixed_point_products_and_quotients() {
    // 1.5 * 1.5 == 2.25 and 1 / 2 == 0.5, exactly in fixed point.
    assert_eq!(fx_mul(98304, 98304), 147456);
    assert_eq!(fx_div(FX_ONE, 2 * FX_ONE), FX_ONE / 2);
    assert_eq!(fx_mul(-98304, 98304), -147456);
}

#[test]
fn integer_square_roots_floor() {
    assert_eq!(isqrt(0), 0);
    assert_eq!(isqrt(144), 12);
    assert_eq!(isqrt(145), 12);
    assert_eq!(isqrt(168), 12);
    assert_eq!(isqrt(169), 13);
}

#[test]
fn editor_defaults_and_override() {
    let mut editor = Editor::new();
    assert_eq!(editor.get_editor(), "nano");
    editor.set_editor("vim".to_string());
    assert_eq!(editor.get_editor(), "vim");
}

#[test]
fn menu_selection_wraps() {
    assert_eq!(select_next(5, 6), 0);
    assert_eq!(select_next(2, 6), 3);
    assert_eq!(select_previous(0, 6), 5);
    assert_eq!(select_previous(3, 6), 2);
}

#[test]
fn menu_entries_map_to_actions() {
    assert_eq!(
        execute_selected_item(0, MenuState::Main),
        (MenuState::Main, Some(MenuAction::ShowTreeSelection))
    );
    assert_eq!(
        execute_selected_item(4, MenuState::Main),
        (MenuState::Help, None)
    );
    assert_eq!(
        execute_selected_item(5, MenuState::Main),
        (MenuState::Main, Some(MenuAction::Exit))
    );
    assert_eq!(execute_selected_item(9, MenuState::Main), (MenuState::Main, None));
}
