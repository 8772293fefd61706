use avg_playback::player::GamePlayScene;
use avg_playback::script::{validate_script, AvgItem, ScriptError, SelectionItem};

fn plain_beat(body: &str) -> AvgItem {
    AvgItem {
        background_music: None,
        background_image_path: None,
        center_character_image_path: None,
        character_name: None,
        content: Some(body.to_string()),
        selection_items: None,
        next_index: None,
    }
}

#[test]
fn empty_script_is_rejected() {
    assert_eq!(validate_script(&vec![]), Err(ScriptError::EmptyScript));
    assert!(GamePlayScene::new(vec![]).is_err());
}

#[test]
fn bad_choice_target_rejects_whole_script() {
    // A choice jumping to len + 5 is a data error found at construction.
    let mut beat = plain_beat("pick one");
    beat.selection_items = Some(vec![SelectionItem {
        content: "onwards".to_string(),
        next_index: 6,
    }]);
    let script = vec![beat];
    assert_eq!(
        validate_script(&script),
        Err(ScriptError::BadSelectionTarget {
            beat: 0,
            selection: 0,
            target: 6,
        })
    );
    assert!(GamePlayScene::new(script).is_err());
}

#[test]
fn bad_explicit_next_is_rejected() {
    let mut beat = plain_beat("jump");
    beat.next_index = Some(2);
    assert_eq!(
        validate_script(&vec![beat]),
        Err(ScriptError::BadNextIndex { beat: 0, target: 2 })
    );
}

#[test]
fn target_equal_to_length_means_end_and_is_accepted() {
    let mut beat = plain_beat("last words");
    beat.next_index = Some(1);
    assert_eq!(validate_script(&vec![beat]), Ok(()));
}

#[test]
fn choice_target_equal_to_length_is_accepted() {
    let mut beat = plain_beat("pick");
    beat.selection_items = Some(vec![SelectionItem {
        content: "the end".to_string(),
        next_index: 1,
    }]);
    assert_eq!(validate_script(&vec![beat]), Ok(()));
}

#[test]
fn later_beat_violation_is_found() {
    let good = plain_beat("fine");
    let mut bad = plain_beat("broken");
    bad.selection_items = Some(vec![
        SelectionItem {
            content: "ok".to_string(),
            next_index: 0,
        },
        SelectionItem {
            content: "out of range".to_string(),
            next_index: 9,
        },
    ]);
    assert_eq!(
        validate_script(&vec![good, bad]),
        Err(ScriptError::BadSelectionTarget {
            beat: 1,
            selection: 1,
            target: 9,
        })
    );
}

#[test]
fn valid_script_produces_a_fresh_player() {
    let scene = GamePlayScene::new(vec![plain_beat("hello")]).unwrap();
    assert_eq!(scene.current_index, -1);
    assert_eq!(scene.next_index, 0);
    assert!(scene.background.is_none());
    assert!(scene.body_label.is_none());
    assert!(scene.choice_labels.is_none());
}
