use jump_wiz::tiles::{
    collision_tile_size, tile_world_coord, StaticCollider, TileGridConfig, TileMarker,
    TileSynthesizer,
};

fn config() -> TileGridConfig {
    // Tile size 64 world units, half grid extent 16 tiles, scale 1.0.
    TileGridConfig { tile_size: 64_000, half_grid_extent: 16, scale: 1000 }
}

fn marker(id: u64, x: i64, y: i64) -> TileMarker {
    TileMarker { id, x, y }
}

#[test]
fn world_position_of_the_origin_tile() {
    // (0 - 16) * 64 + 32 = -992 world units on each axis.
    let cfg = config();
    assert_eq!(tile_world_coord(0, &cfg), -992_000);
}

#[test]
fn world_position_off_the_origin() {
    let cfg = config();
    assert_eq!(tile_world_coord(3, &cfg), -800_000);
    assert_eq!(tile_world_coord(5, &cfg), -672_000);
    assert_eq!(tile_world_coord(16, &cfg), 32_000);
}

#[test]
fn collision_tile_size_applies_the_scale() {
    let cfg = config();
    assert_eq!(collision_tile_size(&cfg), 64_000);
    let half = TileGridConfig { scale: 500, ..cfg };
    assert_eq!(collision_tile_size(&half), 32_000);
}

#[test]
fn one_marker_becomes_one_collider() {
    let mut synth = TileSynthesizer::new(config());
    assert!(synth.observe_marker(marker(7, 0, 0)));
    synth.drain();
    assert_eq!(synth.pending.len(), 0);
    assert_eq!(synth.colliders.len(), 1);
    assert_eq!(
        synth.colliders[0],
        StaticCollider { marker_id: 7, center_x: -992_000, center_y: -992_000, size: 64_000 },
    );
}

#[test]
fn draining_again_adds_nothing() {
    let mut synth = TileSynthesizer::new(config());
    synth.observe_marker(marker(7, 0, 0));
    synth.drain();
    synth.drain();
    synth.drain();
    assert_eq!(synth.colliders.len(), 1);
}

#[test]
fn reobserving_a_processed_marker_is_ignored() {
    let mut synth = TileSynthesizer::new(config());
    assert!(synth.observe_marker(marker(7, 0, 0)));
    synth.drain();
    assert!(!synth.observe_marker(marker(7, 0, 0)));
    synth.drain();
    assert_eq!(synth.colliders.len(), 1);
}

#[test]
fn reobserving_a_pending_marker_is_ignored() {
    let mut synth = TileSynthesizer::new(config());
    assert!(synth.observe_marker(marker(7, 2, 3)));
    assert!(!synth.observe_marker(marker(7, 2, 3)));
    assert_eq!(synth.pending.len(), 1);
    synth.drain();
    assert_eq!(synth.colliders.len(), 1);
}

#[test]
fn retracting_a_pending_marker_cancels_its_collider() {
    let mut synth = TileSynthesizer::new(config());
    synth.observe_marker(marker(7, 0, 0));
    assert!(synth.retract_marker(7));
    synth.drain();
    assert_eq!(synth.colliders.len(), 0);
}

#[test]
fn retracting_an_absent_marker_is_a_benign_no_op() {
    let mut synth = TileSynthesizer::new(config());
    synth.observe_marker(marker(7, 0, 0));
    assert!(!synth.retract_marker(8));
    synth.drain();
    // Retracting after the drain converted the marker changes nothing.
    assert!(!synth.retract_marker(7));
    assert_eq!(synth.colliders.len(), 1);
}

#[test]
fn every_marker_gets_its_own_collider() {
    let mut synth = TileSynthesizer::new(config());
    synth.observe_marker(marker(1, 0, 0));
    synth.observe_marker(marker(2, 3, 5));
    synth.observe_marker(marker(3, 16, 16));
    synth.drain();
    assert_eq!(synth.colliders.len(), 3);
    assert_eq!(synth.colliders[0].marker_id, 1);
    assert_eq!(synth.colliders[1].center_x, -800_000);
    assert_eq!(synth.colliders[1].center_y, -672_000);
    assert_eq!(synth.colliders[2].center_x, 32_000);
    assert_eq!(synth.colliders[2].center_y, 32_000);
}

#[test]
fn markers_observed_across_drains_each_convert_once() {
    let mut synth = TileSynthesizer::new(config());
    synth.observe_marker(marker(1, 0, 0));
    synth.drain();
    synth.observe_marker(marker(2, 1, 1));
    synth.drain();
    assert_eq!(synth.colliders.len(), 2);
    assert_eq!(synth.processed, vec![1, 2]);
}
