use rapidfire::actor::{ActorError, ProjectActor, ProjectMessage, Reply};
use rapidfire::hub::Event;
use rapidfire::project::{Project, SoundInstance, SoundScene, SoundVariant};

fn sound(id: &str, volume: u32, looped: bool, variant: SoundVariant) -> SoundInstance {
    SoundInstance {
        id: id.to_string(),
        display_name: format!("Sound {}", id),
        path: format!("sounds/{}.ogg", id),
        volume,
        looped,
        variant,
    }
}

fn sample() -> Project {
    Project {
        display_name: "Demo".to_string(),
        scenes: vec![
            SoundScene {
                id: "title".to_string(),
                display_name: "Title".to_string(),
                sounds: vec![
                    sound("bgm", 80, true, SoundVariant::Bgm),
                    sound("click", 50, false, SoundVariant::Se),
                ],
            },
            SoundScene {
                id: "stage".to_string(),
                display_name: "Stage 1".to_string(),
                sounds: vec![sound("bgm", 70, true, SoundVariant::Bgm), sound("hello", 90, false, SoundVariant::Voice)],
            },
        ],
    }
}

fn same_sound(a: &SoundInstance, b: &SoundInstance) -> bool {
    a.id == b.id
        && a.display_name == b.display_name
        && a.path == b.path
        && a.volume == b.volume
        && a.looped == b.looped
        && a.variant == b.variant
}

fn same_project(a: &Project, b: &Project) -> bool {
    a.display_name == b.display_name
        && a.scenes.len() == b.scenes.len()
        && a.scenes.iter().zip(b.scenes.iter()).all(|(x, y)| {
            x.id == y.id
                && x.display_name == y.display_name
                && x.sounds.len() == y.sounds.len()
                && x.sounds.iter().zip(y.sounds.iter()).all(|(s, t)| same_sound(s, t))
        })
}

fn volume_patch(scene: &str, snd: &str, volume: u32) -> ProjectMessage {
    ProjectMessage::PatchSoundVolume { scene_id: scene.to_string(), sound_id: snd.to_string(), volume }
}

fn looped_patch(scene: &str, snd: &str, looped: bool) -> ProjectMessage {
    ProjectMessage::PatchSoundLooped { scene_id: scene.to_string(), sound_id: snd.to_string(), looped }
}

#[test]
fn patch_volume_changes_only_that_sound() {
    let mut actor = ProjectActor::new(sample());
    let r = actor.handle(volume_patch("stage", "bgm", 33));
    assert!(matches!(r, Ok(Reply::Updated(_))));
    let got = actor.get_project().unwrap();
    let mut want = sample();
    want.scenes[1].sounds[0].volume = 33;
    assert!(same_project(&got, &want));
    assert_eq!(got.scenes[0].sounds[0].volume, 80);
}

#[test]
fn patch_looped_changes_only_that_sound() {
    let mut actor = ProjectActor::new(sample());
    actor.handle(looped_patch("title", "click", true)).unwrap();
    let mut want = sample();
    want.scenes[0].sounds[1].looped = true;
    assert!(same_project(&actor.get_project().unwrap(), &want));
}

#[test]
fn unknown_ids_leave_document_unchanged_but_still_broadcast() {
    let mut actor = ProjectActor::new(sample());
    for m in [volume_patch("nowhere", "bgm", 1), volume_patch("title", "missing", 1), looped_patch("stage", "click", true)] {
        match actor.handle(m) {
            Ok(Reply::Updated(p)) => {
                assert!(same_project(&p, &sample()));
                let e = Event::from_reply(Reply::Updated(p));
                assert!(matches!(e, Some(Event::Project { .. })));
            }
            _ => panic!("a patch is always answered with the document"),
        }
    }
    assert!(same_project(&actor.get_project().unwrap(), &sample()));
}

#[test]
fn get_project_replies_with_snapshot() {
    let mut actor = ProjectActor::new(sample());
    match actor.handle(ProjectMessage::GetProject) {
        Ok(Reply::Snapshot(p)) => assert!(same_project(&p, &sample())),
        _ => panic!("a read is answered with a snapshot"),
    }
}

#[test]
fn sequential_patches_apply_in_submission_order() {
    let mut actor = ProjectActor::new(sample());
    let msgs = vec![
        volume_patch("title", "bgm", 10),
        ProjectMessage::GetProject,
        volume_patch("title", "bgm", 20),
        looped_patch("title", "bgm", false),
        volume_patch("stage", "hello", 5),
        ProjectMessage::GetProject,
    ];
    let replies = actor.serve_all(msgs);
    assert_eq!(replies.len(), 6);
    match &replies[1] {
        Ok(Reply::Snapshot(p)) => assert_eq!(p.scenes[0].sounds[0].volume, 10),
        _ => panic!("expected a snapshot"),
    }
    let mut want = sample();
    want.scenes[0].sounds[0].volume = 20;
    want.scenes[0].sounds[0].looped = false;
    want.scenes[1].sounds[1].volume = 5;
    match &replies[5] {
        Ok(Reply::Snapshot(p)) => assert!(same_project(p, &want)),
        _ => panic!("expected a snapshot"),
    }
    assert!(same_project(&actor.get_project().unwrap(), &want));
}

#[test]
fn request_after_shutdown_fails_explicitly() {
    let mut actor = ProjectActor::new(sample());
    assert!(actor.is_running());
    actor.shutdown();
    assert!(!actor.is_running());
    assert!(matches!(actor.handle(ProjectMessage::GetProject), Err(ActorError::ReplyChannelClosed)));
    assert!(matches!(actor.handle(volume_patch("title", "bgm", 1)), Err(ActorError::ReplyChannelClosed)));
    assert!(matches!(actor.get_project(), Err(ActorError::ReplyChannelClosed)));
    assert!(same_project(&actor.into_project(), &sample()));
}

#[test]
fn first_matching_scene_is_patched() {
    let mut p = sample();
    p.scenes[1].id = "title".to_string();
    p.patch_sound_volume(&"title".to_string(), &"bgm".to_string(), 1);
    assert_eq!(p.scenes[0].sounds[0].volume, 1);
    assert_eq!(p.scenes[1].sounds[0].volume, 70);
}

#[test]
fn empty_document_patch_is_noop() {
    let mut p = Project { display_name: String::new(), scenes: vec![] };
    p.patch_sound_looped(&"a".to_string(), &"b".to_string(), true);
    assert!(p.scenes.is_empty());
}

#[test]
fn snapshot_is_deep_copy() {
    let p = sample();
    let mut q = p.snapshot();
    q.scenes[0].sounds[0].volume = 0;
    assert_eq!(p.scenes[0].sounds[0].volume, 80);
}

#[test]
fn stopped_actor_fails_every_queued_request() {
    let mut actor = ProjectActor::new(sample());
    actor.shutdown();
    let replies = actor.serve_all(vec![volume_patch("title", "bgm", 1), ProjectMessage::GetProject]);
    assert_eq!(replies.len(), 2);
    assert!(replies.iter().all(|r| matches!(r, Err(ActorError::ReplyChannelClosed))));
    assert!(same_project(&actor.into_project(), &sample()));
}

#[test]
fn named_patches_broadcast_the_document() {
    let mut actor = ProjectActor::new(sample());
    let mut want = sample();
    want.scenes[0].sounds[1].volume = 12;
    match actor.patch_sound_volume(&"title".to_string(), &"click".to_string(), 12) {
        Ok(Event::Project { project }) => assert!(same_project(&project, &want)),
        _ => panic!("a patch is broadcast as the whole document"),
    }
    want.scenes[1].sounds[1].looped = true;
    match actor.patch_sound_looped(&"stage".to_string(), &"hello".to_string(), true) {
        Ok(Event::Project { project }) => assert!(same_project(&project, &want)),
        _ => panic!("a patch is broadcast as the whole document"),
    }
    match actor.patch_sound_looped(&"stage".to_string(), &"missing".to_string(), false) {
        Ok(Event::Project { project }) => assert!(same_project(&project, &want)),
        _ => panic!("an unmatched patch is still broadcast"),
    }
    assert!(same_project(&actor.get_project().unwrap(), &want));
}

#[test]
fn named_patches_fail_after_shutdown() {
    let mut actor = ProjectActor::new(sample());
    actor.shutdown();
    assert!(matches!(
        actor.patch_sound_volume(&"title".to_string(), &"bgm".to_string(), 1),
        Err(ActorError::ReplyChannelClosed)
    ));
    assert!(matches!(
        actor.patch_sound_looped(&"title".to_string(), &"bgm".to_string(), false),
        Err(ActorError::ReplyChannelClosed)
    ));
    assert!(same_project(&actor.into_project(), &sample()));
}

#[test]
fn duplicate_ids_are_not_well_formed() {
    assert!(sample().is_well_formed());
    assert!(Project { display_name: String::new(), scenes: vec![] }.is_well_formed());
    let mut p = sample();
    p.scenes[1].id = "title".to_string();
    assert!(!p.is_well_formed());
    let mut q = sample();
    q.scenes[1].sounds[1].id = "bgm".to_string();
    assert!(!q.is_well_formed());
    assert!(!q.scenes[1].has_unique_sound_ids());
    assert!(q.scenes[0].has_unique_sound_ids());
}
