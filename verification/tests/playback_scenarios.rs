use avg_playback::layer::{AudioCommand, DrawCommand, Rect};
use avg_playback::player::{GamePlayScene, Phase};
use avg_playback::script::{AvgItem, SelectionItem};

fn empty_beat() -> AvgItem {
    AvgItem {
        background_music: None,
        background_image_path: None,
        center_character_image_path: None,
        character_name: None,
        content: None,
        selection_items: None,
        next_index: None,
    }
}

fn body_beat(body: &str) -> AvgItem {
    let mut b = empty_beat();
    b.content = Some(body.to_string());
    b
}

/// Runs frames until the machine waits for an activation on the given beat.
fn run_until_awaiting(scene: &mut GamePlayScene) {
    for _ in 0..1200 {
        if scene.phase == Phase::AwaitingAdvance {
            return;
        }
        scene.update(16, None);
    }
    panic!("never reached AwaitingAdvance; phase now {:?}", scene.phase);
}

#[test]
fn scenario_linear_two_beats() {
    let script = vec![body_beat("Hi"), body_beat("Bye")];
    let mut scene = GamePlayScene::new(script).unwrap();
    assert_eq!(scene.current_index, -1);
    assert_eq!(scene.phase, Phase::LoadingNextBeat);

    scene.update(16, None);
    assert_eq!(scene.current_index, 0);
    assert_eq!(scene.next_index, 1);
    assert_eq!(scene.phase, Phase::EnteringBeat);

    run_until_awaiting(&mut scene);

    let cmds = scene.update(0, Some((10, 10)));
    assert_eq!(scene.phase, Phase::ExitingBeat);
    assert_eq!(cmds, vec![AudioCommand::PlayConfirmSound]);

    // The body fades out over half a second, then the next beat loads.
    scene.update(500, None);
    assert_eq!(scene.phase, Phase::LoadingNextBeat);
    scene.update(16, None);
    assert_eq!(scene.current_index, 1);
    assert_eq!(scene.phase, Phase::EnteringBeat);
}

#[test]
fn scenario_branch_skips_beats() {
    let mut first = body_beat("Which way?");
    first.selection_items = Some(vec![
        SelectionItem {
            content: "Yes".to_string(),
            next_index: 2,
        },
        SelectionItem {
            content: "No".to_string(),
            next_index: 1,
        },
    ]);
    let script = vec![first, body_beat("no branch"), body_beat("yes branch")];
    let mut scene = GamePlayScene::new(script).unwrap();

    scene.update(16, None);
    run_until_awaiting(&mut scene);

    let cmds = scene.update(0, Some((10, 10)));
    assert_eq!(scene.phase, Phase::ShowingChoices);
    assert_eq!(cmds, vec![AudioCommand::PlayConfirmSound]);

    scene.update(16, None);
    assert_eq!(scene.phase, Phase::AwaitingChoice);
    let labels = scene.choice_labels.as_ref().unwrap();
    assert_eq!(labels.len(), 2);
    assert_eq!(labels[0].target_index, 2);
    assert_eq!(labels[1].target_index, 1);
    // Two bands of 540: label 0 sits in the upper band, label 1 below it.
    assert_eq!(labels[0].rect.y, 780);
    assert_eq!(labels[1].rect.y, 240);

    // The host reports the laid-out quads; a click inside label 0 picks it.
    scene.set_choice_label_bounds(0, Rect { x: 480, y: 780, w: 300, h: 80 });
    scene.set_choice_label_bounds(1, Rect { x: 480, y: 240, w: 300, h: 80 });
    let cmds = scene.update(0, Some((500, 800)));
    assert_eq!(scene.phase, Phase::ExitingBeat);
    assert_eq!(scene.next_index, 2);
    assert_eq!(cmds, vec![AudioCommand::PlayConfirmSound]);
    assert!(scene.choice_labels.as_ref().unwrap()[0].selected);

    // Beat 1 is skipped entirely.
    for _ in 0..200 {
        scene.update(16, None);
        if scene.current_index == 2 {
            break;
        }
    }
    assert_eq!(scene.current_index, 2);
}

#[test]
fn scenario_marker_clears_background() {
    let mut first = body_beat("a scene");
    first.background_image_path = Some("bg.png".to_string());
    let mut second = body_beat("darkness");
    second.background_image_path = Some("NO_IMAGE".to_string());
    let mut scene = GamePlayScene::new(vec![first, second]).unwrap();

    scene.update(16, None);
    run_until_awaiting(&mut scene);
    assert_eq!(scene.background.as_ref().unwrap().alpha, 1000);

    scene.update(0, Some((1, 1)));
    for _ in 0..200 {
        if scene.phase == Phase::LoadingNextBeat {
            break;
        }
        scene.update(16, None);
    }
    assert_eq!(scene.phase, Phase::LoadingNextBeat);
    scene.update(16, None);

    // The marker released the background layer.
    assert!(scene.background.is_none());
    // The absent layer never blocks the fade-in from completing.
    run_until_awaiting(&mut scene);
    assert!(scene.background.is_none());
}

#[test]
fn zero_frame_changes_nothing_while_waiting() {
    let script = vec![body_beat("idle test")];
    let mut scene = GamePlayScene::new(script).unwrap();
    scene.update(16, None);
    run_until_awaiting(&mut scene);

    let phase_before = scene.phase;
    let reveal_before = scene.body_label.as_ref().unwrap().reveal;
    let alpha_before = scene.body_label.as_ref().unwrap().alpha;
    let cmds = scene.update(0, None);
    assert_eq!(scene.phase, phase_before);
    assert_eq!(scene.body_label.as_ref().unwrap().reveal, reveal_before);
    assert_eq!(scene.body_label.as_ref().unwrap().alpha, alpha_before);
    assert!(cmds.is_empty());
}

#[test]
fn zero_frame_changes_nothing_mid_fade() {
    let mut first = body_beat("fading");
    first.background_image_path = Some("bg.png".to_string());
    let mut scene = GamePlayScene::new(vec![first]).unwrap();
    scene.update(16, None);
    scene.update(100, None);
    assert_eq!(scene.phase, Phase::EnteringBeat);

    let bg_before = scene.background.as_ref().unwrap().alpha;
    scene.update(0, None);
    assert_eq!(scene.phase, Phase::EnteringBeat);
    assert_eq!(scene.background.as_ref().unwrap().alpha, bg_before);
}

#[test]
fn default_successor_is_next_in_order() {
    let script = vec![body_beat("one"), body_beat("two")];
    let mut scene = GamePlayScene::new(script).unwrap();
    scene.update(16, None);
    assert_eq!(scene.next_index, 1);
}

#[test]
fn explicit_next_overrides_linear_advance() {
    let mut first = body_beat("jumping");
    first.next_index = Some(3);
    let script = vec![first, body_beat("a"), body_beat("b"), body_beat("c")];
    let mut scene = GamePlayScene::new(script).unwrap();
    scene.update(16, None);
    assert_eq!(scene.current_index, 0);
    assert_eq!(scene.next_index, 3);
}

#[test]
fn playback_idles_past_the_end() {
    let script = vec![body_beat("only")];
    let mut scene = GamePlayScene::new(script).unwrap();
    scene.update(16, None);
    run_until_awaiting(&mut scene);
    scene.update(0, Some((1, 1)));
    for _ in 0..200 {
        scene.update(16, None);
    }
    // next_index reached the script's length; nothing moves any more.
    assert_eq!(scene.phase, Phase::LoadingNextBeat);
    assert_eq!(scene.next_index, 1);
    let cmds = scene.update(16, Some((5, 5)));
    assert!(cmds.is_empty());
    assert_eq!(scene.phase, Phase::LoadingNextBeat);
}

#[test]
fn music_request_fires_on_load() {
    let mut first = body_beat("with music");
    first.background_music = Some("theme.mp3".to_string());
    let mut scene = GamePlayScene::new(vec![first]).unwrap();
    let cmds = scene.update(16, None);
    assert_eq!(cmds, vec![AudioCommand::PlayMusic("theme.mp3".to_string())]);
}

#[test]
fn reveal_completes_after_glyphs_over_rate_seconds() {
    // "Hello" has 5 glyphs; at 10 glyphs per second it completes in 0.5 s.
    let script = vec![body_beat("Hello")];
    let mut scene = GamePlayScene::new(script).unwrap();
    scene.update(16, None);
    scene.update(500, None);
    assert_eq!(scene.body_label.as_ref().unwrap().reveal, 1000000);
    assert_eq!(scene.phase, Phase::AwaitingAdvance);
}

#[test]
fn reveal_counts_code_points_not_bytes() {
    // Two CJK characters are two glyphs, though many more bytes.
    let script = vec![body_beat("悠太")];
    let mut scene = GamePlayScene::new(script).unwrap();
    scene.update(16, None);
    assert_eq!(scene.body_label.as_ref().unwrap().glyphs, 2);
    scene.update(200, None);
    assert_eq!(scene.body_label.as_ref().unwrap().reveal, 1000000);
}

#[test]
fn activation_skips_animation_within_one_frame() {
    let script = vec![body_beat(
        "a rather long line of dialogue that would otherwise take seconds",
    )];
    let mut scene = GamePlayScene::new(script).unwrap();
    scene.update(16, None);
    assert_eq!(scene.phase, Phase::EnteringBeat);
    scene.update(16, Some((3, 3)));
    assert_eq!(scene.phase, Phase::AwaitingAdvance);
}

#[test]
fn first_matching_label_wins() {
    let mut first = body_beat("overlap");
    first.selection_items = Some(vec![
        SelectionItem {
            content: "first".to_string(),
            next_index: 1,
        },
        SelectionItem {
            content: "second".to_string(),
            next_index: 2,
        },
    ]);
    let script = vec![first, body_beat("a"), body_beat("b")];
    let mut scene = GamePlayScene::new(script).unwrap();
    scene.update(16, None);
    run_until_awaiting(&mut scene);
    scene.update(0, Some((1, 1)));
    scene.update(16, None);

    // Both labels cover the same huge rectangle; the first in list order wins.
    let everywhere = Rect { x: 0, y: 0, w: 1920, h: 1080 };
    scene.set_choice_label_bounds(0, everywhere);
    scene.set_choice_label_bounds(1, everywhere);
    scene.update(0, Some((960, 540)));
    assert_eq!(scene.next_index, 1);
}

#[test]
fn miss_leaves_the_choice_pending() {
    let mut first = body_beat("pick");
    first.selection_items = Some(vec![SelectionItem {
        content: "only".to_string(),
        next_index: 1,
    }]);
    let script = vec![first, body_beat("after")];
    let mut scene = GamePlayScene::new(script).unwrap();
    scene.update(16, None);
    run_until_awaiting(&mut scene);
    scene.update(0, Some((1, 1)));
    scene.update(16, None);
    assert_eq!(scene.phase, Phase::AwaitingChoice);

    // The labels still have their zero-sized placeholder quads: no hit.
    let cmds = scene.update(16, Some((481, 300)));
    assert_eq!(scene.phase, Phase::AwaitingChoice);
    assert!(cmds.is_empty());
}

#[test]
fn bounds_report_without_labels_is_ignored() {
    let script = vec![body_beat("plain")];
    let mut scene = GamePlayScene::new(script).unwrap();
    scene.set_choice_label_bounds(0, Rect { x: 0, y: 0, w: 9, h: 9 });
    assert!(scene.choice_labels.is_none());
}

#[test]
fn draw_order_and_frame_variants() {
    let mut first = body_beat("spoken line");
    first.background_image_path = Some("bg.png".to_string());
    first.character_name = Some("Akira".to_string());
    let mut scene = GamePlayScene::new(vec![first]).unwrap();
    scene.update(16, None);
    let cmds = scene.draw();
    assert_eq!(cmds.len(), 4);
    assert!(matches!(&cmds[0], DrawCommand::Background { path, .. } if path.as_str() == "bg.png"));
    assert!(matches!(&cmds[1], DrawCommand::Frame { with_name: true }));
    assert!(matches!(&cmds[2], DrawCommand::SpeakerName { text, .. } if text.as_str() == "Akira"));
    assert!(matches!(&cmds[3], DrawCommand::Body { text, .. } if text.as_str() == "spoken line"));
}

#[test]
fn no_body_means_no_frame() {
    let mut first = empty_beat();
    first.background_image_path = Some("bg.png".to_string());
    let mut scene = GamePlayScene::new(vec![first]).unwrap();
    scene.update(16, None);
    let cmds = scene.draw();
    assert_eq!(cmds.len(), 1);
    assert!(matches!(&cmds[0], DrawCommand::Background { .. }));
}

#[test]
fn overlay_and_labels_drawn_while_choosing() {
    let mut first = body_beat("pick");
    first.selection_items = Some(vec![SelectionItem {
        content: "go".to_string(),
        next_index: 1,
    }]);
    let script = vec![first, body_beat("after")];
    let mut scene = GamePlayScene::new(script).unwrap();
    scene.update(16, None);
    run_until_awaiting(&mut scene);
    scene.update(0, Some((1, 1)));
    scene.update(16, None);

    let cmds = scene.draw();
    // body + frame + overlay at 0.75 + one label.
    assert!(cmds
        .iter()
        .any(|c| matches!(c, DrawCommand::SelectionOverlay { alpha: 750 })));
    assert!(cmds
        .iter()
        .any(|c| matches!(c, DrawCommand::ChoiceLabel { text, .. } if text.as_str() == "go")));
}

#[test]
fn speaker_continuity_keeps_name_opaque() {
    let mut first = body_beat("line one");
    first.character_name = Some("Akira".to_string());
    let mut second = body_beat("line two");
    second.character_name = Some("Akira".to_string());
    let mut third = body_beat("line three");
    third.character_name = Some("Beni".to_string());
    let mut scene = GamePlayScene::new(vec![first, second, third]).unwrap();

    scene.update(16, None);
    run_until_awaiting(&mut scene);
    scene.update(0, Some((1, 1)));
    for _ in 0..200 {
        scene.update(16, None);
        if scene.current_index == 1 {
            break;
        }
    }
    // Same speaker: the fresh label starts opaque, keeping visual continuity.
    assert_eq!(scene.current_index, 1);
    assert_eq!(scene.name_label.as_ref().unwrap().alpha, 1000);

    run_until_awaiting(&mut scene);
    scene.update(0, Some((1, 1)));
    for _ in 0..200 {
        scene.update(16, None);
        if scene.current_index == 2 {
            break;
        }
    }
    // A new speaker: the label starts transparent and fades in.
    assert_eq!(scene.current_index, 2);
    assert_eq!(scene.name_label.as_ref().unwrap().alpha, 0);
}
