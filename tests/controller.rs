use nvtop::controller::{Command, Dashboard, Key};

#[test]
fn starts_on_the_first_device() {
    let d = Dashboard::new(3);
    assert_eq!(d, Dashboard { selected: 0, device_count: 3 });
}

#[test]
fn quit_and_rescan_keys() {
    let mut d = Dashboard::new(3);
    assert_eq!(d.on_input(Some(Key::Char('q'))), Command::Quit);
    assert_eq!(d.on_input(Some(Key::Char('p'))), Command::Rescan);
    assert_eq!(d, Dashboard::new(3));
}

#[test]
fn function_keys_select_valid_devices() {
    let mut d = Dashboard::new(3);
    assert_eq!(d.on_input(Some(Key::F(2))), Command::Continue);
    assert_eq!(d.selected, 2);
    assert_eq!(d.on_input(Some(Key::F(3))), Command::Continue);
    assert_eq!(d.selected, 2);
    assert_eq!(d.on_input(Some(Key::F(1))), Command::Continue);
    assert_eq!(d.selected, 1);
}

#[test]
fn other_input_and_timeouts_keep_running() {
    let mut d = Dashboard { selected: 1, device_count: 2 };
    assert_eq!(d.on_input(None), Command::Continue);
    assert_eq!(d.on_input(Some(Key::Char('x'))), Command::Continue);
    assert_eq!(d.on_input(Some(Key::Other)), Command::Continue);
    assert_eq!(d, Dashboard { selected: 1, device_count: 2 });
}

#[test]
fn shrinking_rescan_resets_selection() {
    let mut d = Dashboard { selected: 3, device_count: 4 };
    d.after_rescan(2);
    assert_eq!(d, Dashboard { selected: 0, device_count: 2 });
    let mut d = Dashboard { selected: 2, device_count: 4 };
    d.after_rescan(2);
    assert_eq!(d.selected, 0);
}

#[test]
fn same_size_rescan_keeps_selection() {
    let mut d = Dashboard { selected: 2, device_count: 4 };
    d.after_rescan(4);
    assert_eq!(d, Dashboard { selected: 2, device_count: 4 });
    d.after_rescan(3);
    assert_eq!(d.selected, 2);
}
