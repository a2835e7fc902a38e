use ascii_render::config::state::ConfigState;
use ascii_render::config::ui::{ConfigUI, Focus, Key, UiAction};
use ascii_render::gpu::headless::{LightingMode, RotationMode};
use ascii_render::model::loader::{
    eq_ignore_ascii_case, get_model_display_name, get_skybox_display_name, is_skybox_file,
    model_format, ModelFormat,
};

fn list(items: &[&str]) -> Vec<String> {
    items.iter().map(|s| s.to_string()).collect()
}

#[test]
fn names_compare_without_regard_to_ascii_case() {
    assert!(eq_ignore_ascii_case("Scene", "scene"));
    assert!(eq_ignore_ascii_case("SCENE", "sCeNe"));
    assert!(eq_ignore_ascii_case("", ""));
    assert!(!eq_ignore_ascii_case("scene", "scenes"));
    assert!(!eq_ignore_ascii_case("scene", "scenf"));
    assert!(!eq_ignore_ascii_case("a[", "a{"));
    assert!(!eq_ignore_ascii_case("@", "`"));
    assert!(!eq_ignore_ascii_case("\u{e9}", "\u{c9}"));
    for (a, b) in [("Ab1_z", "aB1_Z"), ("x", "y"), ("Z", "z"), ("az", "AZ")] {
        assert_eq!(eq_ignore_ascii_case(a, b), a.eq_ignore_ascii_case(b));
    }
}

#[test]
fn model_with_a_telling_file_name_goes_by_it() {
    assert_eq!(get_model_display_name(Some("teapot"), Some("models"), Some("teapot.obj")), "teapot.obj");
    assert_eq!(get_model_display_name(Some("teapot"), Some("Kitchen"), Some("teapot.obj")), "teapot.obj");
    assert_eq!(get_model_display_name(Some("teapot"), None, Some("teapot.obj")), "teapot.obj");
}

#[test]
fn model_with_a_generic_file_name_goes_by_its_folder() {
    for stem in ["scene", "model", "mesh", "object", "untitled", "Scene", "MODEL"] {
        assert_eq!(
            get_model_display_name(Some(stem), Some("DamagedHelmet"), Some("scene.gltf")),
            "DamagedHelmet"
        );
    }
}

#[test]
fn model_in_the_models_folder_keeps_its_generic_file_name() {
    assert_eq!(get_model_display_name(Some("scene"), Some("models"), Some("scene.gltf")), "scene.gltf");
    assert_eq!(get_model_display_name(Some("scene"), Some("Models"), Some("scene.gltf")), "scene.gltf");
    assert_eq!(get_model_display_name(Some("scene"), None, Some("scene.gltf")), "scene.gltf");
}

#[test]
fn model_without_a_readable_name_is_unknown() {
    assert_eq!(get_model_display_name(None, None, None), "unknown");
    assert_eq!(get_model_display_name(None, Some("Helmet"), None), "unknown");
    assert_eq!(get_model_display_name(Some("teapot"), Some("Helmet"), None), "unknown");
    assert_eq!(get_model_display_name(Some("scene"), Some("Helmet"), None), "Helmet");
}

#[test]
fn skybox_goes_by_its_file_name_without_extension() {
    assert_eq!(get_skybox_display_name(Some("sunset")), "sunset");
    assert_eq!(get_skybox_display_name(Some("")), "");
    assert_eq!(get_skybox_display_name(None), "unknown");
}

#[test]
fn model_formats_by_extension() {
    assert_eq!(model_format(Some("obj")), Some(ModelFormat::Obj));
    assert_eq!(model_format(Some("OBJ")), Some(ModelFormat::Obj));
    assert_eq!(model_format(Some("gltf")), Some(ModelFormat::Gltf));
    assert_eq!(model_format(Some("glb")), Some(ModelFormat::Gltf));
    assert_eq!(model_format(Some("GlB")), Some(ModelFormat::Gltf));
    assert_eq!(model_format(Some("fbx")), None);
    assert_eq!(model_format(Some("")), None);
    assert_eq!(model_format(Some("objx")), None);
    assert_eq!(model_format(None), None);
}

#[test]
fn skybox_files_by_extension() {
    for ext in ["jpg", "jpeg", "png", "bmp", "JPG", "Png"] {
        assert!(is_skybox_file(ext));
    }
    for ext in ["gif", "", "jpe", "pngg", "obj"] {
        assert!(!is_skybox_file(ext));
    }
}

#[test]
fn new_config_has_nothing_chosen() {
    let config = ConfigState::new();
    assert_eq!(config.model_path, None);
    assert!(config.available_models.is_empty());
    assert_eq!(config.rotation_mode, RotationMode::AxisY);
    assert_eq!(config.lighting_mode, LightingMode::Diffuse);
    assert_eq!(config.skybox_path, None);
    assert!(config.available_skyboxes.is_empty());
    assert_eq!(config.selected_model_index(), None);
    assert_eq!(config.selected_skybox_index(), 0);
}

#[test]
fn refresh_models_chooses_the_first_where_none_is_chosen() {
    let mut config = ConfigState::new();
    config.refresh_models(list(&["a.obj", "b.obj"]));
    assert_eq!(config.model_path.as_deref(), Some("a.obj"));
    assert_eq!(config.available_models, list(&["a.obj", "b.obj"]));
    assert_eq!(config.selected_model_index(), Some(0));
}

#[test]
fn refresh_models_keeps_a_choice_that_is_still_on_offer() {
    let mut config = ConfigState::new();
    config.refresh_models(list(&["a.obj", "b.obj", "c.obj"]));
    config.select_model(2);
    config.refresh_models(list(&["c.obj", "d.obj"]));
    assert_eq!(config.model_path.as_deref(), Some("c.obj"));
    assert_eq!(config.selected_model_index(), Some(0));
}

#[test]
fn refresh_models_replaces_a_choice_that_is_gone() {
    let mut config = ConfigState::new();
    config.refresh_models(list(&["a.obj", "b.obj"]));
    config.select_model(1);
    config.refresh_models(list(&["x.obj", "y.obj"]));
    assert_eq!(config.model_path.as_deref(), Some("x.obj"));
    config.refresh_models(Vec::new());
    assert_eq!(config.model_path, None);
    assert_eq!(config.selected_model_index(), None);
}

#[test]
fn select_model_past_the_list_changes_nothing() {
    let mut config = ConfigState::new();
    config.refresh_models(list(&["a.obj", "b.obj"]));
    config.select_model(1);
    config.select_model(2);
    assert_eq!(config.model_path.as_deref(), Some("b.obj"));
    config.select_model(usize::MAX);
    assert_eq!(config.model_path.as_deref(), Some("b.obj"));
}

#[test]
fn selected_model_index_is_the_first_place_of_the_path() {
    let mut config = ConfigState::new();
    config.refresh_models(list(&["a.obj", "b.obj", "a.obj"]));
    config.select_model(2);
    assert_eq!(config.selected_model_index(), Some(0));
    config.model_path = Some("missing.obj".to_string());
    assert_eq!(config.selected_model_index(), None);
}

#[test]
fn skybox_numbers_start_at_one_and_zero_is_none() {
    let mut config = ConfigState::new();
    config.refresh_skyboxes(list(&["sky.png", "night.jpg"]));
    assert_eq!(config.skybox_path, None);
    assert_eq!(config.selected_skybox_index(), 0);
    config.select_skybox(2);
    assert_eq!(config.skybox_path.as_deref(), Some("night.jpg"));
    assert_eq!(config.selected_skybox_index(), 2);
    config.select_skybox(1);
    assert_eq!(config.skybox_path.as_deref(), Some("sky.png"));
    assert_eq!(config.selected_skybox_index(), 1);
    config.select_skybox(3);
    assert_eq!(config.skybox_path.as_deref(), Some("sky.png"));
    config.select_skybox(0);
    assert_eq!(config.skybox_path, None);
}

#[test]
fn refresh_skyboxes_drops_a_choice_that_is_gone() {
    let mut config = ConfigState::new();
    config.refresh_skyboxes(list(&["sky.png", "night.jpg"]));
    config.select_skybox(2);
    config.refresh_skyboxes(list(&["night.jpg"]));
    assert_eq!(config.skybox_path.as_deref(), Some("night.jpg"));
    assert_eq!(config.selected_skybox_index(), 1);
    config.refresh_skyboxes(list(&["sky.png"]));
    assert_eq!(config.skybox_path, None);
    assert_eq!(config.selected_skybox_index(), 0);
}

#[test]
fn focus_goes_round_the_six_sections() {
    let order = [
        Focus::Models,
        Focus::Rotation,
        Focus::Lighting,
        Focus::Skybox,
        Focus::Speed,
        Focus::Buttons,
    ];
    for i in 0..6 {
        assert_eq!(order[i].next(), order[(i + 1) % 6]);
        assert_eq!(order[(i + 1) % 6].prev(), order[i]);
        assert_eq!(order[i].next().prev(), order[i]);
    }
}

fn sample_ui() -> ConfigUI {
    let mut config = ConfigState::new();
    config.refresh_models(list(&["a.obj", "b.obj", "c.obj"]));
    config.refresh_skyboxes(list(&["sky.png", "night.jpg"]));
    ConfigUI::new(config)
}

#[test]
fn screen_opens_on_what_is_chosen() {
    let ui = sample_ui();
    assert_eq!(ui.focus(), Focus::Models);
    assert_eq!(ui.model_selected(), Some(0));
    assert_eq!(ui.rotation_index(), 2);
    assert_eq!(ui.lighting_index(), 1);
    assert_eq!(ui.skybox_index(), 0);
    assert_eq!(ui.button_index(), 0);
}

#[test]
fn tab_and_back_tab_move_the_focus() {
    let mut ui = sample_ui();
    assert_eq!(ui.handle_key(Key::Tab), UiAction::Continue);
    assert_eq!(ui.focus(), Focus::Rotation);
    assert_eq!(ui.handle_key(Key::BackTab), UiAction::Continue);
    assert_eq!(ui.handle_key(Key::BackTab), UiAction::Continue);
    assert_eq!(ui.focus(), Focus::Buttons);
}

#[test]
fn escape_cancels_and_enter_acts_only_on_the_buttons() {
    let mut ui = sample_ui();
    assert_eq!(ui.handle_key(Key::Enter), UiAction::Continue);
    assert_eq!(ui.handle_key(Key::Esc), UiAction::Cancel);
    ui.handle_key(Key::BackTab);
    assert_eq!(ui.handle_key(Key::Enter), UiAction::Apply);
    assert_eq!(ui.handle_key(Key::Right), UiAction::Continue);
    assert_eq!(ui.button_index(), 1);
    assert_eq!(ui.handle_key(Key::Enter), UiAction::Cancel);
    assert_eq!(ui.handle_key(Key::Left), UiAction::Continue);
    assert_eq!(ui.button_index(), 0);
    assert_eq!(ui.handle_key(Key::Other), UiAction::Continue);
}

#[test]
fn models_stop_at_both_ends_of_the_list() {
    let mut ui = sample_ui();
    ui.handle_key(Key::Up);
    assert_eq!(ui.model_selected(), Some(0));
    ui.handle_key(Key::Down);
    ui.handle_key(Key::Down);
    assert_eq!(ui.model_selected(), Some(2));
    assert_eq!(ui.config().model_path.as_deref(), Some("c.obj"));
    ui.handle_key(Key::Down);
    assert_eq!(ui.model_selected(), Some(2));
    ui.handle_key(Key::Up);
    assert_eq!(ui.config().model_path.as_deref(), Some("b.obj"));
    ui.handle_key(Key::Left);
    ui.handle_key(Key::Right);
    assert_eq!(ui.model_selected(), Some(1));
}

#[test]
fn first_step_down_marks_the_first_model_where_none_is_marked() {
    let mut config = ConfigState::new();
    config.available_models = list(&["a.obj"]);
    let mut ui = ConfigUI::new(config);
    assert_eq!(ui.model_selected(), None);
    ui.handle_key(Key::Down);
    assert_eq!(ui.model_selected(), Some(0));
    assert_eq!(ui.config().model_path.as_deref(), Some("a.obj"));
    let mut empty = ConfigUI::new(ConfigState::new());
    empty.handle_key(Key::Down);
    empty.handle_key(Key::Up);
    assert_eq!(empty.model_selected(), None);
}

#[test]
fn rotation_and_lighting_step_through_their_modes_and_stop() {
    let mut ui = sample_ui();
    ui.handle_key(Key::Tab);
    for _ in 0..10 {
        ui.handle_key(Key::Down);
    }
    assert_eq!(ui.rotation_index(), 5);
    assert_eq!(ui.config().rotation_mode, RotationMode::Orbit);
    for _ in 0..10 {
        ui.handle_key(Key::Left);
    }
    assert_eq!(ui.rotation_index(), 0);
    assert_eq!(ui.config().rotation_mode, RotationMode::Static);
    ui.handle_key(Key::Tab);
    ui.handle_key(Key::Right);
    assert_eq!(ui.lighting_index(), 2);
    assert_eq!(ui.config().lighting_mode, LightingMode::Specular);
    for _ in 0..10 {
        ui.handle_key(Key::Up);
    }
    assert_eq!(ui.config().lighting_mode, LightingMode::Flat);
}

#[test]
fn skyboxes_go_round() {
    let mut ui = sample_ui();
    for _ in 0..3 {
        ui.handle_key(Key::Tab);
    }
    assert_eq!(ui.focus(), Focus::Skybox);
    ui.handle_key(Key::Up);
    assert_eq!(ui.skybox_index(), 2);
    assert_eq!(ui.config().skybox_path.as_deref(), Some("night.jpg"));
    ui.handle_key(Key::Down);
    assert_eq!(ui.skybox_index(), 0);
    assert_eq!(ui.config().skybox_path, None);
    ui.handle_key(Key::Right);
    assert_eq!(ui.skybox_index(), 1);
    assert_eq!(ui.config().skybox_path.as_deref(), Some("sky.png"));
    ui.handle_key(Key::Left);
    assert_eq!(ui.skybox_index(), 0);
}

#[test]
fn speed_is_changed_by_left_and_right_only() {
    let mut ui = sample_ui();
    for _ in 0..4 {
        ui.handle_key(Key::Tab);
    }
    assert_eq!(ui.focus(), Focus::Speed);
    assert_eq!(ui.handle_key(Key::Left), UiAction::SlowDown);
    assert_eq!(ui.handle_key(Key::Right), UiAction::SpeedUp);
    assert_eq!(ui.handle_key(Key::Up), UiAction::Continue);
    assert_eq!(ui.handle_key(Key::Down), UiAction::Continue);
}

#[test]
fn applied_choices_are_handed_back() {
    let mut ui = sample_ui();
    ui.handle_key(Key::Down);
    ui.handle_key(Key::Tab);
    ui.handle_key(Key::Down);
    let config = ui.into_config();
    assert_eq!(config.model_path.as_deref(), Some("b.obj"));
    assert_eq!(config.rotation_mode, RotationMode::AxisZ);
}
