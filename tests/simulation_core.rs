use life_compute::{
    dispatch_workgroups, flip_textures, prepare_bind_group, reinitialize, setup_textures,
    texture_bind_group_layout, update_pipeline_descriptor, BindGroupEntry, CellularAutomata1d,
    ConfigError, GameOfLifeNode, ImageHandle, ImageStore, PassCommand, Settings,
    SimulationImage, Sprite, StorageTextureAccess, TextureFormat, TextureUsages,
    WORKGROUP_SIZE,
};

const BACKGROUND: [u8; 4] = [0, 0, 0, 255];
const FOREGROUND: [u8; 4] = [255, 255, 255, 255];

fn pixel_at(img: &SimulationImage, texel: usize) -> [u8; 4] {
    let b = texel * 4;
    [img.data[b], img.data[b + 1], img.data[b + 2], img.data[b + 3]]
}

#[test]
fn dispatch_covers_full_hd() {
    assert_eq!(dispatch_workgroups(1920, 1080, WORKGROUP_SIZE), (240, 135, 1));
}

#[test]
fn dispatch_rounds_partial_tiles_up() {
    assert_eq!(dispatch_workgroups(17, 9, 8), (3, 2, 1));
    assert_eq!(dispatch_workgroups(1, 1, 8), (1, 1, 1));
    assert_eq!(dispatch_workgroups(0, 16, 8), (0, 2, 1));
    assert_eq!(dispatch_workgroups(u32::MAX, 5, 1), (u32::MAX, 5, 1));
    assert_eq!(dispatch_workgroups(u32::MAX, 7, 8), (536870912, 1, 1));
}

#[test]
fn seed_scenario_full_hd() {
    let mut store = ImageStore::new();
    let setup = setup_textures(&mut store, 1920, 1080, 8192).unwrap();
    let read = store.get(setup.images.read_texture).unwrap();
    let write = store.get(setup.images.write_texture).unwrap();
    assert_eq!(read.data.len(), 1920 * 1080 * 4);
    assert_eq!(write.data.len(), read.data.len());
    let seed = (1920 / 2 - 1) as usize;
    assert_eq!(seed, 959);
    let mut differing = 0usize;
    for t in 0..1920 * 1080 {
        assert_eq!(pixel_at(read, t), BACKGROUND);
        if t == seed {
            assert_eq!(pixel_at(write, t), FOREGROUND);
        } else {
            assert_eq!(pixel_at(write, t), BACKGROUND);
        }
        if pixel_at(read, t) != pixel_at(write, t) {
            differing += 1;
        }
    }
    assert_eq!(differing, 1);
    assert_eq!(&write.data[seed * 4..seed * 4 + 4], &[255u8, 255, 255, 255]);
}

#[test]
fn seed_in_narrow_image_stays_inside() {
    let mut store = ImageStore::new();
    let setup = setup_textures(&mut store, 1, 2, 8192).unwrap();
    let write = store.get(setup.images.write_texture).unwrap();
    assert_eq!(pixel_at(write, 0), FOREGROUND);
    assert_eq!(pixel_at(write, 1), BACKGROUND);
    let setup = setup_textures(&mut store, 4, 1, 8192).unwrap();
    let write = store.get(setup.images.write_texture).unwrap();
    assert_eq!(pixel_at(write, 1), FOREGROUND);
    assert_eq!(pixel_at(write, 0), BACKGROUND);
}

#[test]
fn pair_has_one_shape_and_format() {
    let mut store = ImageStore::new();
    let setup = setup_textures(&mut store, 64, 32, 8192).unwrap();
    let read = store.get(setup.images.read_texture).unwrap();
    let write = store.get(setup.images.write_texture).unwrap();
    assert_eq!((read.width, read.height), (64, 32));
    assert_eq!((write.width, write.height), (64, 32));
    assert_eq!(read.format, TextureFormat::Rgba8Unorm);
    assert_eq!(write.format, TextureFormat::Rgba8Unorm);
    let usage = TextureUsages { copy_dst: true, storage_binding: true, texture_binding: true };
    assert_eq!(read.usage, usage);
    assert_eq!(write.usage, usage);
    assert_ne!(setup.images.read_texture, setup.images.write_texture);
    assert_eq!(
        setup.sprite,
        Sprite { image: setup.images.read_texture, width: 64, height: 32 }
    );
}

#[test]
fn zero_dimension_is_refused() {
    let mut store = ImageStore::new();
    assert_eq!(setup_textures(&mut store, 0, 10, 8192).unwrap_err(), ConfigError::ZeroDimension);
    assert_eq!(setup_textures(&mut store, 10, 0, 8192).unwrap_err(), ConfigError::ZeroDimension);
    assert!(store.get(ImageHandle { id: 0 }).is_none());
}

#[test]
fn oversized_dimension_is_refused() {
    let mut store = ImageStore::new();
    assert_eq!(setup_textures(&mut store, 8193, 10, 8192).unwrap_err(), ConfigError::ExceedsLimit);
    assert_eq!(setup_textures(&mut store, 10, 8193, 8192).unwrap_err(), ConfigError::ExceedsLimit);
    assert!(setup_textures(&mut store, 8192, 1, 8192).is_ok());
}

#[test]
fn swap_twice_restores_roles() {
    let mut store = ImageStore::new();
    let setup = setup_textures(&mut store, 8, 8, 8192).unwrap();
    let initial = setup.images;
    let mut pair = initial;
    pair.swap();
    assert_eq!(pair.read_texture, initial.write_texture);
    assert_eq!(pair.write_texture, initial.read_texture);
    pair.swap();
    assert_eq!(pair, initial);
}

#[test]
fn flip_rebinds_sprites_to_new_read() {
    let mut store = ImageStore::new();
    let setup = setup_textures(&mut store, 8, 4, 8192).unwrap();
    let mut pair = setup.images;
    let mut sprites = vec![setup.sprite, Sprite { image: ImageHandle { id: 7 }, width: 3, height: 5 }];
    flip_textures(&mut pair, &mut sprites);
    assert_eq!(pair.read_texture, setup.images.write_texture);
    assert_eq!(sprites[0], Sprite { image: setup.images.write_texture, width: 8, height: 4 });
    assert_eq!(sprites[1], Sprite { image: setup.images.write_texture, width: 3, height: 5 });
    flip_textures(&mut pair, &mut sprites);
    assert_eq!(pair, setup.images);
    assert_eq!(sprites[0].image, setup.images.read_texture);
}

#[test]
fn reinitialize_replaces_pair() {
    let mut store = ImageStore::new();
    let setup = setup_textures(&mut store, 8, 4, 8192).unwrap();
    let mut pair = setup.images;
    let mut sprites = vec![setup.sprite];
    reinitialize(&mut store, &mut pair, &mut sprites, 16, 2, 8192).unwrap();
    assert!(store.get(setup.images.read_texture).is_none());
    assert!(store.get(setup.images.write_texture).is_none());
    let read = store.get(pair.read_texture).unwrap();
    let write = store.get(pair.write_texture).unwrap();
    assert_eq!((read.width, read.height), (16, 2));
    assert_eq!((write.width, write.height), (16, 2));
    assert_eq!(pixel_at(write, 7), FOREGROUND);
    assert_eq!(sprites[0], Sprite { image: pair.read_texture, width: 16, height: 2 });
}

#[test]
fn reinitialize_error_changes_nothing() {
    let mut store = ImageStore::new();
    let setup = setup_textures(&mut store, 8, 4, 8192).unwrap();
    let mut pair = setup.images;
    let mut sprites = vec![setup.sprite];
    assert_eq!(
        reinitialize(&mut store, &mut pair, &mut sprites, 0, 2, 8192),
        Err(ConfigError::ZeroDimension)
    );
    assert_eq!(pair, setup.images);
    assert_eq!(sprites[0], setup.sprite);
    assert!(store.get(pair.read_texture).is_some());
    assert!(store.get(pair.write_texture).is_some());
}

#[test]
fn image_fill_and_texel_write() {
    let usage = TextureUsages { copy_dst: true, storage_binding: false, texture_binding: true };
    let mut img = SimulationImage::new_fill(2, 2, [1, 2, 3, 4], TextureFormat::Rgba8Unorm, usage);
    assert_eq!(img.data, vec![1, 2, 3, 4, 1, 2, 3, 4, 1, 2, 3, 4, 1, 2, 3, 4]);
    img.set_texel(2, [9, 8, 7, 6]);
    assert_eq!(img.data, vec![1, 2, 3, 4, 1, 2, 3, 4, 9, 8, 7, 6, 1, 2, 3, 4]);
    assert_eq!(img.usage, usage);
}

#[test]
fn store_hands_out_fresh_handles() {
    let mut store = ImageStore::new();
    let usage = TextureUsages::simulation_target();
    let a = store.add(SimulationImage::new_fill(1, 1, [5, 5, 5, 5], TextureFormat::Rgba8Unorm, usage));
    let b = store.add(SimulationImage::new_fill(2, 1, [6, 6, 6, 6], TextureFormat::Rgba8Unorm, usage));
    assert_eq!((a.id, b.id), (0, 1));
    store.remove(a);
    assert!(store.get(a).is_none());
    assert_eq!(store.get(b).unwrap().width, 2);
    let c = store.add(SimulationImage::new_fill(3, 1, [7, 7, 7, 7], TextureFormat::Rgba8Unorm, usage));
    assert_eq!(c.id, 2);
    assert_eq!(store.len(), 3);
    assert!(store.get(ImageHandle { id: 9 }).is_none());
}

#[test]
fn layout_and_bind_group_slots() {
    let layout = texture_bind_group_layout();
    assert_eq!(layout.entries.len(), 2);
    assert_eq!(layout.entries[0].binding, 0);
    assert_eq!(layout.entries[0].access, StorageTextureAccess::ReadOnly);
    assert_eq!(layout.entries[1].binding, 1);
    assert_eq!(layout.entries[1].access, StorageTextureAccess::WriteOnly);
    assert_eq!(layout.entries[1].format, TextureFormat::Rgba8Unorm);
    let mut store = ImageStore::new();
    let pair = setup_textures(&mut store, 8, 8, 8192).unwrap().images;
    let bg = prepare_bind_group(&layout, &pair, true, true).unwrap();
    assert_eq!(
        bg.entries,
        vec![
            BindGroupEntry { binding: 0, image: pair.read_texture },
            BindGroupEntry { binding: 1, image: pair.write_texture },
        ]
    );
}

#[test]
fn bind_group_waits_for_residency() {
    let layout = texture_bind_group_layout();
    let mut store = ImageStore::new();
    let pair = setup_textures(&mut store, 8, 8, 8192).unwrap().images;
    assert!(prepare_bind_group(&layout, &pair, false, true).is_none());
    assert!(prepare_bind_group(&layout, &pair, true, false).is_none());
    assert!(prepare_bind_group(&layout, &pair, false, false).is_none());
}

#[test]
fn unready_pipeline_skips_pass() {
    let layout = texture_bind_group_layout();
    let mut store = ImageStore::new();
    let pair = setup_textures(&mut store, 1920, 1080, 8192).unwrap().images;
    let bg = prepare_bind_group(&layout, &pair, true, true).unwrap();
    let node = GameOfLifeNode;
    assert!(node.run(false, Some(&bg), 1920, 1080).is_empty());
    assert!(node.run(true, None, 1920, 1080).is_empty());
    assert!(node.run(false, None, 1920, 1080).is_empty());
    let before_read = store.get(pair.read_texture).unwrap().data.clone();
    let before_write = store.get(pair.write_texture).unwrap().data.clone();
    node.run(false, Some(&bg), 1920, 1080);
    assert_eq!(store.get(pair.read_texture).unwrap().data, before_read);
    assert_eq!(store.get(pair.write_texture).unwrap().data, before_write);
}

#[test]
fn ready_pipeline_dispatches_whole_image() {
    let layout = texture_bind_group_layout();
    let mut store = ImageStore::new();
    let pair = setup_textures(&mut store, 1920, 1080, 8192).unwrap().images;
    let bg = prepare_bind_group(&layout, &pair, true, true).unwrap();
    let commands = GameOfLifeNode.run(true, Some(&bg), 1920, 1080);
    assert_eq!(
        commands,
        vec![
            PassCommand::SetPipeline,
            PassCommand::SetBindGroup { index: 0 },
            PassCommand::DispatchWorkgroups { x: 240, y: 135, z: 1 },
        ]
    );
}

#[test]
fn each_texel_has_one_invocation() {
    let (w, h) = (10u32, 3u32);
    let (gx, gy, _) = dispatch_workgroups(w, h, WORKGROUP_SIZE);
    let mut hits = vec![0u32; (w * h) as usize];
    for ix in 0..gx * WORKGROUP_SIZE {
        for iy in 0..gy * WORKGROUP_SIZE {
            if ix < w && iy < h {
                hits[(iy * w + ix) as usize] += 1;
            }
        }
    }
    assert!(hits.iter().all(|&n| n == 1));
}

#[test]
fn pipeline_descriptor_names_kernel() {
    let d = update_pipeline_descriptor();
    assert_eq!(d.entry_point, "update");
    assert_eq!(d.shader, "shaders/game_of_life.wgsl");
    assert!(d.zero_initialize_workgroup_memory);
    assert_eq!(d.layout.entries.len(), 2);
}

#[test]
fn default_settings() {
    let s = Settings::default();
    assert!(s.show_menu);
    assert_eq!((s.width, s.height), (1920, 1080));
    assert_eq!(s.steps_per_sec, 60);
    assert_eq!(s.ca_1d, CellularAutomata1d(0));
}
