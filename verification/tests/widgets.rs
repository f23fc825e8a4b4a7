use penumbra::appstate::{
    file_name_of, AntumbraConfig, DeviceAction, DeviceState, DeviceStatus, Preloader,
};
use penumbra::cli::{DaArgs, EraseArgs, RscFlashArgs, XFlashArgs, XFlashSubcommand};
use penumbra::list::{ListItemEntryBuilder, SelectableListBuilder};
use penumbra::ui::{DescriptionMenu, DescriptionMenuItem, Dropdown, DropdownOption, ProgressBar, ProgressMode};

fn menu_items(n: usize) -> Vec<DescriptionMenuItem> {
    (0..n)
        .map(|i| DescriptionMenuItem {
            icon: '*',
            label: format!("item {i}"),
            description: format!("does thing {i}"),
        })
        .collect()
}

#[test]
fn description_menu_wraps_around() {
    let mut menu = DescriptionMenu::new(menu_items(3));
    assert_eq!(menu.selected_index(), 0);
    menu.next();
    menu.next();
    assert_eq!(menu.selected_index(), 2);
    menu.next();
    assert_eq!(menu.selected_index(), 0);
    menu.previous();
    assert_eq!(menu.selected_index(), 2);
}

#[test]
fn description_menu_clamps_the_window() {
    let mut menu = DescriptionMenu::new(menu_items(4));
    menu.set_max_visible(0);
    assert_eq!(menu.max_visible, 1);
    menu.set_max_visible(10);
    assert_eq!(menu.max_visible, 4);
    menu.next();
    menu.set_max_visible(1);
    assert_eq!(menu.scroll_offset, 1);
}

#[test]
fn wrap_text_breaks_at_word_boundaries() {
    let lines = DescriptionMenu::wrap_text("alpha beta gamma", 11);
    assert_eq!(lines, vec!["alpha beta", "gamma"]);
    let lines = DescriptionMenu::wrap_text("", 10);
    assert!(lines.is_empty());
    let lines = DescriptionMenu::wrap_text("superlongword", 4);
    assert_eq!(lines, vec!["superlongword"]);
}

#[test]
fn dropdown_selection_and_lookup() {
    let opts = vec![
        DropdownOption { label: "System".into(), value: "system".into() },
        DropdownOption { label: "Dark".into(), value: "dark".into() },
        DropdownOption { label: "Light".into(), value: "light".into() },
    ];
    let mut dd = Dropdown::new("Theme".into(), opts, 0);
    assert_eq!(dd.value().as_str(), "system");
    dd.set_by_value("light");
    assert_eq!(dd.selected_label().as_str(), "Light");
    dd.set_by_value("missing");
    assert_eq!(dd.value().as_str(), "light");
    dd.set_selected(1);
    assert_eq!(dd.value().as_str(), "dark");
    dd.set_selected(99);
    assert_eq!(dd.value().as_str(), "dark");
    assert!(!dd.is_open());
    dd.toggle_open();
    assert!(dd.is_open());
    dd.move_up();
    assert_eq!(dd.value().as_str(), "system");
    dd.move_down();
    dd.move_down();
    dd.move_down();
    assert_eq!(dd.value().as_str(), "light");
    dd.close();
    assert!(!dd.is_open());
}

#[test]
fn progress_bar_tracks_an_operation() {
    let mut pb = ProgressBar::new();
    assert_eq!(pb.mode, ProgressMode::Idle);
    pb.set_written(10);
    assert_eq!(pb.written_bytes, 0);
    pb.start(100, "Reading".into());
    pb.set_written(40);
    assert_eq!(pb.written_bytes, 40);
    pb.set_written(1000);
    assert_eq!(pb.written_bytes, 100);
    pb.set_message("Almost".into());
    assert_eq!(pb.message, "Almost");
    pb.finish();
    assert_eq!(pb.mode, ProgressMode::Idle);
    assert_eq!(pb.total_bytes, 0);
}

#[test]
fn selectable_list_toggles_and_collects() {
    let items = vec![
        ListItemEntryBuilder::new("boot".into()).value("boot".into()).build(),
        ListItemEntryBuilder::new("system".into()).icon('#').build(),
        ListItemEntryBuilder::new("userdata".into()).build(),
    ];
    let mut list = SelectableListBuilder::new()
        .items(items)
        .highlight_symbol(">>")
        .toggled(true)
        .build();
    assert_eq!(list.highlight_symbol, ">> ");
    assert_eq!(list.selected_index(), Some(0));
    list.next();
    list.toggle_selected();
    assert!(list.items[1].is_toggled());
    assert_eq!(list.checked_items().len(), 1);
    list.previous();
    assert_eq!(list.selected_index(), Some(0));
    list.previous();
    assert_eq!(list.selected_index(), Some(2));
    list.clear_selections();
    assert_eq!(list.checked_items().len(), 0);
}

#[test]
fn device_state_reports_connection() {
    let mut st = DeviceState::new();
    assert!(!st.is_connected());
    st.set_status(DeviceStatus::Connecting);
    assert!(!st.is_connected());
    st.set_status(DeviceStatus::Connected);
    assert!(st.is_connected());
}

#[test]
fn device_actions_have_labels() {
    assert_eq!(DeviceAction::all().len(), 5);
    assert_eq!(DeviceAction::UnlockBootloader.label(), "Unlock Bootloader");
    assert_eq!(DeviceAction::BackToMenu.label(), "Back to Menu");
}

#[test]
fn preloader_exposes_its_file_name() {
    let pl = Preloader::new("/tmp/images/preloader_k6989v1.bin".into(), vec![1, 2, 3]);
    assert_eq!(pl.file_name().unwrap(), "preloader_k6989v1.bin");
    assert_eq!(pl.data(), vec![1, 2, 3]);
    assert_eq!(pl.path().as_str(), "/tmp/images/preloader_k6989v1.bin");
    assert_eq!(file_name_of(""), None);
    assert_eq!(file_name_of("trailing/"), None);
    assert_eq!(file_name_of("plain.bin").unwrap(), "plain.bin");
}

#[test]
fn config_defaults_to_the_system_theme() {
    let cfg = AntumbraConfig::new_default();
    assert_eq!(cfg.theme, "system");
}

#[test]
fn command_argument_shapes_carry_their_paths() {
    let erase = EraseArgs {
        da: DaArgs { da_file: "da.bin".into(), preloader_file: None },
        partition: "seccfg".into(),
    };
    assert_eq!(erase.da().as_str(), "da.bin");
    assert!(erase.pl().is_none());

    let xf = XFlashArgs {
        command: XFlashSubcommand::RscFlash(RscFlashArgs {
            da: DaArgs { da_file: "da2.bin".into(), preloader_file: Some("pl.bin".into()) },
            partition: "boot".into(),
            file: "boot.img".into(),
        }),
    };
    assert_eq!(xf.da().as_str(), "da2.bin");
    assert_eq!(xf.pl().as_deref(), Some("pl.bin"));
}
