use rraylib::error::Error;
use rraylib::handle::{ResourceHandle, ResourceKind};

#[test]
fn owned_handle_releases_once() {
    let handle = ResourceHandle::owned(ResourceKind::Texture, 7u32);
    assert!(handle.owns());
    assert_eq!(handle.kind(), ResourceKind::Texture);
    let release = handle.release().unwrap();
    assert_eq!(release.kind, ResourceKind::Texture);
    assert_eq!(release.value, 7);
}

#[test]
fn unowned_handle_releases_nothing() {
    let handle = ResourceHandle::unowned(ResourceKind::Font, 9u32);
    assert!(!handle.owns());
    assert_eq!(*handle.as_raw(), 9);
    assert!(handle.release().is_none());
}

#[test]
fn invalid_load_gives_no_handle() {
    let loaded = ResourceHandle::from_loaded(ResourceKind::Texture, 0u32, false);
    assert!(matches!(loaded, Err(Error::UnableToLoad("texture"))));
    let loaded = ResourceHandle::from_loaded(ResourceKind::AutomationEvents, 0u32, false);
    assert!(matches!(loaded, Err(Error::UnableToLoad("automation events"))));
}

#[test]
fn valid_load_gives_an_owned_handle() {
    let loaded = ResourceHandle::from_loaded(ResourceKind::Shader, 3u32, true).unwrap();
    assert!(loaded.owns());
    assert_eq!(*loaded.as_raw(), 3);
    assert_eq!(loaded.release().unwrap().value, 3);
}

#[test]
fn copy_of_a_view_is_owned() {
    let view = ResourceHandle::unowned(ResourceKind::Image, 1u32);
    let copy = view.copied(2);
    assert!(copy.owns());
    assert_eq!(copy.kind(), ResourceKind::Image);
    assert_eq!(copy.release().unwrap().value, 2);
    assert!(view.release().is_none());
}

#[test]
fn mutable_access_keeps_ownership() {
    let mut handle = ResourceHandle::owned(ResourceKind::Wave, 1u32);
    *handle.as_mut() = 5;
    assert!(handle.owns());
    assert_eq!(handle.release().unwrap().value, 5);
}

#[test]
fn batch_load_wraps_every_valid_value() {
    let loaded = rraylib::handle::from_loaded_all(
        ResourceKind::Material,
        vec![10u32, 11, 12],
        &vec![true, true, true],
    )
    .unwrap();
    assert_eq!(loaded.len(), 3);
    for (i, handle) in loaded.iter().enumerate() {
        assert!(handle.owns());
        assert_eq!(handle.kind(), ResourceKind::Material);
        assert_eq!(*handle.as_raw(), 10 + i as u32);
    }
    let releases = rraylib::handle::release_all(loaded);
    let values: Vec<u32> = releases.iter().map(|r| r.value).collect();
    assert_eq!(values, vec![10, 11, 12]);
}

#[test]
fn batch_load_stops_at_the_first_invalid_value() {
    let loaded = rraylib::handle::from_loaded_all(
        ResourceKind::ModelAnimation,
        vec![10u32, 11, 12, 13],
        &vec![true, true, false, true],
    );
    match loaded {
        Err((Error::UnableToLoad("model animation"), releases)) => {
            let values: Vec<u32> = releases.iter().map(|r| r.value).collect();
            assert_eq!(values, vec![10, 11]);
            assert!(releases.iter().all(|r| r.kind == ResourceKind::ModelAnimation));
        }
        _ => panic!("expected a failed load"),
    }
    let loaded =
        rraylib::handle::from_loaded_all(ResourceKind::Material, vec![1u32], &vec![false]);
    match loaded {
        Err((Error::UnableToLoad("material"), releases)) => assert!(releases.is_empty()),
        _ => panic!("expected a failed load"),
    }
}

#[test]
fn empty_batch_loads_nothing() {
    let loaded =
        rraylib::handle::from_loaded_all(ResourceKind::Material, Vec::<u32>::new(), &vec![])
            .unwrap();
    assert!(loaded.is_empty());
}

#[test]
fn release_all_skips_views() {
    let handles = vec![
        ResourceHandle::owned(ResourceKind::Texture, 1u32),
        ResourceHandle::unowned(ResourceKind::Texture, 2u32),
        ResourceHandle::owned(ResourceKind::Font, 3u32),
    ];
    let releases = rraylib::handle::release_all(handles);
    let seen: Vec<(ResourceKind, u32)> = releases.iter().map(|r| (r.kind, r.value)).collect();
    assert_eq!(seen, vec![(ResourceKind::Texture, 1), (ResourceKind::Font, 3)]);
}

#[test]
fn kinds_have_their_names() {
    let names = [
        (ResourceKind::Image, "image"),
        (ResourceKind::Texture, "texture"),
        (ResourceKind::RenderTexture, "render texture"),
        (ResourceKind::Font, "font"),
        (ResourceKind::Shader, "shader"),
        (ResourceKind::Material, "material"),
        (ResourceKind::Model, "model"),
        (ResourceKind::ModelAnimation, "model animation"),
        (ResourceKind::Wave, "wave"),
        (ResourceKind::Sound, "sound"),
        (ResourceKind::Music, "music"),
        (ResourceKind::AudioStream, "audio stream"),
        (ResourceKind::AutomationEvents, "automation events"),
    ];
    for (kind, name) in names {
        assert_eq!(kind.name(), name);
    }
}

#[test]
fn sound_alias_is_always_released() {
    let alias = rraylib::audio::SoundAlias::new(4u32);
    let release = alias.release();
    assert_eq!(release.kind, ResourceKind::SoundAlias);
    assert_eq!(release.value, 4);
}

#[test]
fn shader_lookups() {
    assert_eq!(rraylib::graphics::shader_location(3).unwrap(), 3);
    assert_eq!(rraylib::graphics::shader_location(0).unwrap(), 0);
    assert!(matches!(
        rraylib::graphics::shader_location(-1),
        Err(Error::UnableToLoad("shader location"))
    ));
    assert_eq!(rraylib::graphics::shader_attribute(5).unwrap(), 5);
    assert!(matches!(
        rraylib::graphics::shader_attribute(-1),
        Err(Error::UnableToLoad("shader attribute"))
    ));
}

#[test]
fn scaling_defaults_to_bicubic() {
    assert_eq!(rraylib::graphics::Scaling::default(), rraylib::graphics::Scaling::Bicubic);
}

#[test]
fn views_of_a_list_release_nothing() {
    let views = rraylib::handle::unowned_all(ResourceKind::AutomationEvents, vec![5u32, 6, 7]);
    assert_eq!(views.len(), 3);
    for (i, view) in views.iter().enumerate() {
        assert!(!view.owns());
        assert_eq!(*view.as_raw(), 5 + i as u32);
        assert_eq!(view.kind(), ResourceKind::AutomationEvents);
    }
    assert!(rraylib::handle::release_all(views).is_empty());
}

#[test]
fn processor_detaches_from_where_it_was_attached() {
    let on_stream = rraylib::audio::Processor::on_stream(3u32, 'c');
    let detach = on_stream.release();
    assert_eq!(detach.stream, Some(3));
    assert_eq!(detach.callback, 'c');
    let on_mixer = rraylib::audio::Processor::<u32, char>::on_mixer('m');
    let detach = on_mixer.release();
    assert_eq!(detach.stream, None);
    assert_eq!(detach.callback, 'm');
}
