use durs::shell::App;

#[test]
fn new_app_runs_on_given_path() {
    let app = App::new("some/dir".to_string());
    assert_eq!(app.path, "some/dir");
    assert!(app.running);
    assert!(!app.shuld_close());
}

#[test]
fn q_key_quits() {
    let mut app = App::new(".".to_string());
    app.on_key('q');
    assert!(app.shuld_close());
}

#[test]
fn capital_q_key_quits() {
    let mut app = App::new(".".to_string());
    app.on_key('Q');
    assert!(app.shuld_close());
}

#[test]
fn other_keys_change_nothing() {
    let mut app = App::new(".".to_string());
    app.on_key('x');
    app.on_down();
    app.on_left();
    app.on_right();
    app.on_up();
    assert!(!app.shuld_close());
    assert_eq!(app.path, ".");
}
