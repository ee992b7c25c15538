use piston_shooty::fps_counter::FpsCounter;
use piston_shooty::game::{App, Transition};
use piston_shooty::game_state::{
    update_result_fail, update_result_running, update_result_success, FrameInput, GameState,
    GameStateType, UpdateResult, UpdateResultType,
};
use piston_shooty::input::{Button, ButtonMap, ButtonState, Key, MouseButton};
use piston_shooty::menu_screen::MenuScreen;
use piston_shooty::victory_screen::VictoryScreen;

fn pressed() -> ButtonState {
    ButtonState { held: false, pressed: true, released: false }
}

fn keys(pressed_keys: &[Key]) -> ButtonMap {
    let mut map = ButtonMap::new();
    for k in pressed_keys {
        map.insert(Button::Keyboard(*k), pressed());
    }
    map
}

fn click() -> ButtonMap {
    let mut map = ButtonMap::new();
    map.insert(Button::Mouse(MouseButton::Left), pressed());
    map
}

fn levels(n: usize) -> Vec<String> {
    (0..n).map(|i| format!("level {}", i)).collect()
}

fn menu(n: usize) -> MenuScreen {
    MenuScreen::new(levels(n), FpsCounter::starting_at(0))
}

#[test]
fn menu_moves_up_by_one_and_down_by_two() {
    let mut menu = menu(5);
    assert!(menu.is_valid());
    let none = ButtonMap::new();
    assert_eq!(menu.run_frame(&keys(&[Key::Down]), &none), update_result_running());
    assert_eq!(menu.selected_world_index, 2);
    menu.run_frame(&keys(&[Key::Up]), &none);
    assert_eq!(menu.selected_world_index, 1);
    menu.run_frame(&keys(&[Key::Down]), &none);
    assert_eq!(menu.selected_world_index, 3);
    menu.run_frame(&keys(&[Key::Down]), &none);
    assert_eq!(menu.selected_world_index, 4);
    menu.run_frame(&keys(&[Key::Down]), &none);
    assert_eq!(menu.selected_world_index, 4);
    menu.run_frame(&keys(&[Key::Up, Key::Down]), &none);
    assert_eq!(menu.selected_world_index, 4);
    let mut menu = MenuScreen::new(levels(3), FpsCounter::starting_at(0));
    menu.run_frame(&keys(&[Key::Up]), &none);
    assert_eq!(menu.selected_world_index, 0);
}

#[test]
fn menu_confirms_with_click_or_return() {
    let mut menu = menu(3);
    let none = ButtonMap::new();
    let result = menu.run_frame(&keys(&[Key::Down, Key::Return]), &none);
    assert_eq!(
        result,
        UpdateResult { result_type: UpdateResultType::Success, result_code: 2 }
    );
    let result = menu.run_frame(&keys(&[Key::Up]), &click());
    assert_eq!(
        result,
        UpdateResult { result_type: UpdateResultType::Success, result_code: 1 }
    );
    let input = FrameInput {
        key_states: keys(&[Key::Q]),
        mouse_states: ButtonMap::new(),
        contacts: Vec::new(),
        timer_fired: false,
    };
    let frame = GameState::update(&mut menu, &input);
    assert_eq!(frame.result, update_result_running());
    assert_eq!(menu.get_type(), GameStateType::WorldSelect);
}

#[test]
fn victory_screen_reports_success_on_click() {
    let mut screen = VictoryScreen {};
    assert_eq!(screen.run_frame(&keys(&[Key::Return]), &ButtonMap::new()), update_result_running());
    assert_eq!(screen.run_frame(&ButtonMap::new(), &click()), update_result_success());
    assert_eq!(screen.get_type(), GameStateType::Victory);
}

#[test]
fn game_goes_from_menu_through_levels_to_victory() {
    let mut app = App::new(levels(2));
    assert_eq!(app.game_state, GameStateType::WorldSelect);
    assert!(app.is_valid());
    assert_eq!(app.advance_game_state(update_result_running()), Transition::Stay);
    assert_eq!(app.advance_game_state(update_result_fail()), Transition::Stay);
    let chosen = UpdateResult { result_type: UpdateResultType::Success, result_code: 1 };
    assert_eq!(app.advance_game_state(chosen), Transition::LoadLevel(1));
    assert_eq!(app.game_state, GameStateType::World);
    assert_eq!(app.level_index, 1);
    assert_eq!(app.advance_game_state(update_result_running()), Transition::Stay);
    assert_eq!(app.advance_game_state(update_result_fail()), Transition::LoadLevel(1));
    assert_eq!(app.level_index, 1);
    assert_eq!(app.advance_game_state(update_result_success()), Transition::ShowVictory);
    assert_eq!(app.game_state, GameStateType::Victory);
    assert_eq!(app.level_index, 2);
    assert_eq!(app.advance_game_state(update_result_success()), Transition::Stay);
    assert_eq!(app.advance_game_state(update_result_fail()), Transition::Stay);
    assert_eq!(app.game_state, GameStateType::Victory);
}

#[test]
fn winning_a_level_loads_the_next_one() {
    let mut app = App::new(levels(3));
    let chosen = UpdateResult { result_type: UpdateResultType::Success, result_code: 0 };
    assert_eq!(app.advance_game_state(chosen), Transition::LoadLevel(0));
    assert_eq!(app.advance_game_state(update_result_success()), Transition::LoadLevel(1));
    assert_eq!(app.advance_game_state(update_result_success()), Transition::LoadLevel(2));
    assert_eq!(app.level_index, 2);
}

#[test]
fn menu_code_that_names_no_level_keeps_the_menu() {
    let mut app = App::new(levels(2));
    for code in [-1, 2, 99, i64::MIN, i64::MAX] {
        let chosen = UpdateResult { result_type: UpdateResultType::Success, result_code: code };
        assert_eq!(app.advance_game_state(chosen), Transition::Stay);
        assert_eq!(app.game_state, GameStateType::WorldSelect);
        assert_eq!(app.level_index, 0);
    }
}
