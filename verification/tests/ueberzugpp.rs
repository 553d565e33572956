use sha2::Digest;
use harmonium::artwork::layer::{LayerStep, ProcessStatus, SendOutcome};
use harmonium::artwork::overlay::ArtworkOverlay;
use harmonium::artwork::ueberzugpp::{add_command, arguments, remove_command, Manager, PROGRAM};
use harmonium::digest::hex_bytes;
use harmonium::geometry::Rect;
use harmonium::path::FilePath;

fn overlay(path: &str) -> ArtworkOverlay {
    ArtworkOverlay::new(
        4,
        FilePath::from_text(path),
        Rect {
            x: 7,
            y: 3,
            width: 20,
            height: 10,
        },
    )
}

/// Send everything that a step asks for over a pipe that works.
fn deliver(manager: &mut Manager, mut step: LayerStep, text: &mut String) {
    loop {
        match step {
            LayerStep::Send(line) => {
                text.push_str(std::str::from_utf8(&line).expect("JSON line"));
                step = manager.sent(SendOutcome::Sent);
            }
            _ => return,
        }
    }
}

#[test]
fn add_command_contains_terminal_geometry_and_path() {
    let value = add_command(&overlay("/cache/cover.png"));
    assert_eq!(value["action"], "add");
    assert_eq!(value["path"], "/cache/cover.png");
    assert_eq!(value["x"], 7);
    assert_eq!(value["y"], 3);
    assert_eq!(value["width"], 20);
    assert_eq!(value["height"], 10);
    assert_eq!(value["scaler"], "fit_contain");
}

#[test]
fn command_uses_ueberzugpp_layer_mode() {
    assert_eq!(PROGRAM, "ueberzugpp");
    assert_eq!(arguments(), ["layer"]);
}

#[test]
fn remove_command_targets_only_the_identifier() {
    let value = remove_command("harmonium-artwork-id");
    let mut expected = serde_json::Map::new();
    expected.insert("action".to_string(), "remove".into());
    expected.insert("identifier".to_string(), "harmonium-artwork-id".into());
    assert_eq!(value, serde_json::Value::Object(expected));
}

#[test]
fn replacement_removes_before_adding_and_same_overlay_is_not_replayed() {
    let mut text = String::new();
    let mut manager = Manager::new();
    let first = overlay("/cache/one.png");
    let second = overlay("/cache/two.png");

    for desired in [first.clone(), first, second] {
        let step = manager.reconcile(Some(desired), ProcessStatus::Running);
        deliver(&mut manager, step, &mut text);
    }

    let remove = text.find("\"action\":\"remove\"").expect("remove command");
    let add = text[remove..]
        .find("\"action\":\"add\"")
        .expect("replacement add command");
    assert!(add > 0, "replacement add must follow remove");
    assert_eq!(text.matches("\"action\":\"add\"").count(), 2);
    assert_eq!(text.lines().count(), 3);
    assert!(text.ends_with('\n'));
}

#[test]
fn ueberzugpp_broken_process_io_disables_without_panicking() {
    let mut manager = Manager::new();
    let step = manager.reconcile(Some(overlay("/cache/cover.png")), ProcessStatus::Running);
    assert!(matches!(step, LayerStep::Send(_)));
    assert!(matches!(manager.sent(SendOutcome::Failed), LayerStep::Disable));
    assert!(!manager.is_enabled());
    assert!(matches!(
        manager.reconcile(None, ProcessStatus::Running),
        LayerStep::Rest
    ));
}

#[test]
fn exited_process_disables_the_layer() {
    for status in [ProcessStatus::Exited, ProcessStatus::Unknown] {
        let mut manager = Manager::new();
        let step = manager.reconcile(Some(overlay("/cache/cover.png")), status);
        assert!(matches!(step, LayerStep::Disable));
        assert!(!manager.is_enabled());
    }
}

#[test]
fn disabled_layers_take_any_path() {
    let mut manager = Manager::new();
    let desired = ArtworkOverlay::new(
        4,
        FilePath::from_bytes(vec![0xff]),
        overlay("/cache/cover.png").rect,
    );
    assert!(matches!(
        manager.reconcile(Some(desired.clone()), ProcessStatus::Exited),
        LayerStep::Disable
    ));
    assert!(matches!(
        manager.reconcile(Some(desired), ProcessStatus::Running),
        LayerStep::Rest
    ));
}

#[test]
fn failed_removal_does_not_add_the_next_image() {
    let mut text = String::new();
    let mut manager = Manager::new();
    let step = manager.reconcile(Some(overlay("/cache/one.png")), ProcessStatus::Running);
    deliver(&mut manager, step, &mut text);
    let step = manager.reconcile(Some(overlay("/cache/two.png")), ProcessStatus::Running);
    assert!(matches!(step, LayerStep::Send(_)));
    assert!(matches!(manager.sent(SendOutcome::Unknown), LayerStep::Rest));
    assert!(manager.is_enabled());
    assert!(manager.pipe.active.is_none());
}

#[test]
fn cleanup_removes_the_image_and_closes_the_pipe() {
    let mut text = String::new();
    let mut manager = Manager::new();
    let step = manager.reconcile(Some(overlay("/cache/one.png")), ProcessStatus::Running);
    deliver(&mut manager, step, &mut text);

    let step = manager.cleanup_layer();
    match step {
        LayerStep::Send(line) => {
            let line = String::from_utf8(line).expect("JSON line");
            assert!(line.contains("\"action\":\"remove\""));
        }
        _ => panic!("expected a removal"),
    }
    assert!(matches!(manager.sent(SendOutcome::Sent), LayerStep::Disable));
    assert!(matches!(manager.cleanup_layer(), LayerStep::Disable));
}

#[test]
fn overlay_identity_is_a_digest_of_track_and_path() {
    let mut hasher = sha2::Sha256::new();
    hasher.update(4u64.to_le_bytes());
    hasher.update(b"/cache/cover.png");
    let identifier = format!("harmonium-artwork-{}", hex_bytes(&hasher.finalize()));
    assert_eq!(overlay("/cache/cover.png").identifier, identifier);
    assert_ne!(overlay("/cache/other.png").identifier, identifier);
}

#[test]
fn control_characters_in_a_path_stay_on_one_line() {
    let mut manager = Manager::new();
    let step = manager.reconcile(Some(overlay("/cache/a\nb.png")), ProcessStatus::Running);
    match step {
        LayerStep::Send(line) => {
            assert_eq!(line.iter().filter(|byte| **byte == 10).count(), 1);
            assert_eq!(line.last(), Some(&10));
        }
        _ => panic!("expected a command"),
    }
}
