//! The placed-feature path end to end: pipeline, registry resolution,
//! selectors, and block-state providers.

use worldgen::block::ChunkBlockState;
use worldgen::block::BLOCK_DIRT;
use worldgen::block::BLOCK_STONE;
use worldgen::block_state_provider::BlockStateProvider;
use worldgen::block_state_provider::NoiseBlockStateProvider;
use worldgen::block_state_provider::NoiseBlockStateProviderBase;
use worldgen::block_state_provider::SimpleStateProvider;
use worldgen::chunk::ProtoChunk;
use worldgen::configured_features::ConfiguredFeature;
use worldgen::int_provider::IntProvider;
use worldgen::math::BlockPos;
use worldgen::placed_features::CountPlacementModifier;
use worldgen::placed_features::Feature;
use worldgen::placed_features::FeatureRegistry;
use worldgen::placed_features::PlacedFeature;
use worldgen::placed_features::PlacedFeatureWrapper;
use worldgen::placed_features::PlacementModifier;
use worldgen::random::RandomGenerator;
use worldgen::random_boolean_selector::RandomBooleanFeature;
use worldgen::simple_block::SimpleBlockFeature;
use worldgen::simple_random_selector::SimpleRandomFeature;

fn empty_chunk() -> ProtoChunk {
    let air = ChunkBlockState::air();
    ProtoChunk::new(-64, 384, air, vec![vec![String::from("wells")]], 0)
}

fn pos(x: i32, y: i32, z: i32) -> BlockPos {
    BlockPos::new(x, y, z)
}

fn empty_registry() -> FeatureRegistry {
    FeatureRegistry { placed: Vec::new(), configured: Vec::new() }
}

fn simple_stone() -> ConfiguredFeature {
    ConfiguredFeature::SimpleBlock(SimpleBlockFeature {
        to_place: BlockStateProvider::SimpleStateProvider(SimpleStateProvider {
            state: ChunkBlockState::new("stone").unwrap(),
        }),
        schedule_tick: None,
    })
}

#[test]
fn placed_feature_writes_through_the_pipeline() {
    let mut chunk = empty_chunk();
    let registry = empty_registry();
    let feature = PlacedFeature {
        feature: Feature::Inlined(simple_stone()),
        placement: vec![PlacementModifier::Count(CountPlacementModifier {
            count: IntProvider::Constant(2),
        })],
    };
    let mut g = RandomGenerator::legacy_from_seed(0);
    let placed = feature.generate(
        &mut chunk, -64, 384, "wells", &mut g, pos(5, 70, 5), &registry, 0, 8,
    );
    assert!(placed);
    assert_eq!(chunk.get_block_state(&pos(5, 70, 5)).block_id, BLOCK_STONE);
}

#[test]
fn named_feature_resolves_through_the_registry() {
    let mut chunk = empty_chunk();
    let registry = FeatureRegistry {
        placed: Vec::new(),
        configured: vec![(String::from("single_stone"), simple_stone())],
    };
    let feature = PlacedFeature {
        feature: Feature::Named(String::from("minecraft:single_stone")),
        placement: Vec::new(),
    };
    let mut g = RandomGenerator::legacy_from_seed(0);
    let placed = feature.generate(
        &mut chunk, -64, 384, "wells", &mut g, pos(1, 60, 1), &registry, 0, 8,
    );
    assert!(placed);
    assert_eq!(chunk.get_block_state(&pos(1, 60, 1)).block_id, BLOCK_STONE);
}

#[test]
fn unknown_named_feature_reports_no_placement() {
    let mut chunk = empty_chunk();
    let registry = empty_registry();
    let feature = PlacedFeature {
        feature: Feature::Named(String::from("minecraft:missing")),
        placement: Vec::new(),
    };
    let writes_before = chunk.cells.len();
    let mut g = RandomGenerator::legacy_from_seed(0);
    let placed = feature.generate(
        &mut chunk, -64, 384, "wells", &mut g, pos(1, 60, 1), &registry, 0, 8,
    );
    assert!(!placed);
    assert_eq!(chunk.cells.len(), writes_before);
}

#[test]
fn boolean_selector_follows_the_coin_flip() {
    let registry = empty_registry();
    let stone_feature = PlacedFeature {
        feature: Feature::Inlined(simple_stone()),
        placement: Vec::new(),
    };
    let dirt_feature = PlacedFeature {
        feature: Feature::Inlined(ConfiguredFeature::SimpleBlock(SimpleBlockFeature {
            to_place: BlockStateProvider::SimpleStateProvider(SimpleStateProvider {
                state: ChunkBlockState::new("dirt").unwrap(),
            }),
            schedule_tick: None,
        })),
        placement: Vec::new(),
    };
    let selector = RandomBooleanFeature {
        feature_true: Box::new(PlacedFeatureWrapper::Direct(stone_feature)),
        feature_false: Box::new(PlacedFeatureWrapper::Direct(dirt_feature)),
    };
    let mut chunk = empty_chunk();
    let mut g = RandomGenerator::legacy_from_seed(0);
    let mut flip_probe = RandomGenerator::legacy_from_seed(0);
    let expected_true = flip_probe.next_bool();
    let placed = selector.generate(
        &mut chunk, -64, 384, "wells", &mut g, pos(2, 50, 2), &registry, 0, 8,
    );
    assert!(placed);
    let written = chunk.get_block_state(&pos(2, 50, 2)).block_id;
    if expected_true {
        assert_eq!(written, BLOCK_STONE);
    } else {
        assert_eq!(written, BLOCK_DIRT);
    }
}

#[test]
fn simple_random_selector_indexes_uniformly() {
    let registry = empty_registry();
    let selector = SimpleRandomFeature {
        features: vec![PlacedFeature {
            feature: Feature::Inlined(simple_stone()),
            placement: Vec::new(),
        }],
    };
    let mut chunk = empty_chunk();
    let mut g = RandomGenerator::xoroshiro_from_seed(1);
    let placed = selector.generate(
        &mut chunk, -64, 384, "wells", &mut g, pos(3, 40, 3), &registry, 0, 8,
    );
    assert!(placed);
    assert_eq!(chunk.get_block_state(&pos(3, 40, 3)).block_id, BLOCK_STONE);
}

#[test]
fn noise_bucket_selection_is_deterministic() {
    let provider = NoiseBlockStateProvider {
        base: NoiseBlockStateProviderBase {
            seed: 0,
            first_octave: -3,
            amplitudes: vec![0x100_0000],
            scale: 0x10_0000,
        },
        states: vec![
            ChunkBlockState::new("stone").unwrap(),
            ChunkBlockState::new("dirt").unwrap(),
        ],
    };
    // A sample of zero normalizes to one half: the second bucket.
    assert_eq!(provider.get_state_by_value(0).block_id, BLOCK_DIRT);
    // The lowest sample lands in the first bucket.
    assert_eq!(provider.get_state_by_value(-0x100_0000).block_id, BLOCK_STONE);
    // The highest sample clamps just under one: still the last bucket.
    assert_eq!(provider.get_state_by_value(0x100_0000).block_id, BLOCK_DIRT);
    // Identical samplers and inputs return identical picks.
    assert_eq!(
        provider.get_state_by_value(123456).block_id,
        provider.get_state_by_value(123456).block_id
    );
}

#[test]
fn threshold_provider_picks_by_threshold_then_chance() {
    let provider = worldgen::block_state_provider::NoiseThresholdBlockStateProvider {
        base: NoiseBlockStateProviderBase {
            seed: 0,
            first_octave: -3,
            amplitudes: vec![0x100_0000],
            scale: 0x10_0000,
        },
        threshold: 0,
        high_chance: 0,
        default_state: ChunkBlockState::new("sand").unwrap(),
        low_states: vec![ChunkBlockState::new("stone").unwrap()],
        high_states: vec![ChunkBlockState::new("dirt").unwrap()],
    };
    let mut g = RandomGenerator::legacy_from_seed(0);
    // Below the threshold: a uniform pick from the single low state.
    let low = provider.get(&mut g, BlockPos::new(0, 0, 0), -1);
    assert_eq!(low.block_id, BLOCK_STONE);
    // At or above the threshold with zero chance: the default state.
    let fallback = provider.get(&mut g, BlockPos::new(0, 0, 0), 1);
    assert_eq!(fallback.block_id, worldgen::block::BLOCK_SAND);
}

#[test]
fn declared_only_providers_resolve_to_air() {
    let provider = BlockStateProvider::WeightedBlockStateProvider(
        worldgen::block_state_provider::WeightedBlockStateProvider {},
    );
    let mut g = RandomGenerator::legacy_from_seed(0);
    let s = provider.get(&mut g, BlockPos::new(0, 0, 0), 0);
    assert!(s.is_air());
}

#[test]
fn ore_and_fallen_tree_report_no_placement() {
    let registry = empty_registry();
    let mut chunk = empty_chunk();
    let ore = ConfiguredFeature::Ore(worldgen::configured_features::OreFeatureConfig {
        targets: Vec::new(),
        size: 8,
        discard_chance_on_air_exposure: 0,
    });
    let mut g = RandomGenerator::legacy_from_seed(0);
    let writes_before = chunk.cells.len();
    assert!(!ore.generate(&mut chunk, -64, 384, "ore", &mut g, pos(0, 0, 0), &registry, 0, 8));
    assert_eq!(chunk.cells.len(), writes_before);
    let fallen = worldgen::fallen_tree::FallenTreeFeature {
        trunk_provider: BlockStateProvider::SimpleStateProvider(SimpleStateProvider {
            state: ChunkBlockState::new("oak_log").unwrap(),
        }),
    };
    assert!(!fallen.generate(&mut chunk, -64, 384, "fallen", &mut g, pos(0, 0, 0)));
    assert_eq!(chunk.cells.len(), writes_before);
}

#[test]
fn whole_run_is_deterministic() {
    let registry = empty_registry();
    let build = || PlacedFeature {
        feature: Feature::Inlined(simple_stone()),
        placement: vec![
            PlacementModifier::InSquare(worldgen::placed_features::SquarePlacementModifier),
            PlacementModifier::Count(CountPlacementModifier { count: IntProvider::Constant(2) }),
        ],
    };
    let mut c1 = empty_chunk();
    let mut c2 = empty_chunk();
    let mut g1 = RandomGenerator::xoroshiro_from_seed(2024);
    let mut g2 = RandomGenerator::xoroshiro_from_seed(2024);
    let r1 = build().generate(&mut c1, -64, 384, "wells", &mut g1, pos(0, 64, 0), &registry, 0, 8);
    let r2 = build().generate(&mut c2, -64, 384, "wells", &mut g2, pos(0, 64, 0), &registry, 0, 8);
    assert_eq!(r1, r2);
    assert!(g1 == g2);
    assert_eq!(c1.cells.len(), c2.cells.len());
    for i in 0..c1.cells.len() {
        assert_eq!(c1.cells[i].0, c2.cells[i].0);
        assert_eq!(c1.cells[i].1.state_id, c2.cells[i].1.state_id);
    }
}

#[test]
fn random_patch_retries_and_reports_any_success() {
    let registry = empty_registry();
    let patch = worldgen::random_patch::RandomPatchFeature {
        tries: 4,
        xz_spread: 2,
        y_spread: 1,
        feature: Box::new(PlacedFeature {
            feature: Feature::Inlined(simple_stone()),
            placement: Vec::new(),
        }),
    };
    let mut chunk = empty_chunk();
    let mut g = RandomGenerator::legacy_from_seed(6);
    let placed = patch.generate(
        &mut chunk, -64, 384, "patch", &mut g, pos(0, 100, 0), &registry, 0, 8,
    );
    assert!(placed);
    // Every write landed within the configured jitter spreads.
    for (p, _) in &chunk.cells {
        assert!((p.0.x + 2) >= 0 && p.0.x <= 2);
        assert!((p.0.y - 100).abs() <= 1);
        assert!((p.0.z + 2) >= 0 && p.0.z <= 2);
    }
    let zero_tries = worldgen::random_patch::RandomPatchFeature {
        tries: 0,
        xz_spread: 2,
        y_spread: 1,
        feature: Box::new(PlacedFeature {
            feature: Feature::Inlined(simple_stone()),
            placement: Vec::new(),
        }),
    };
    let mut chunk2 = empty_chunk();
    assert!(!zero_tries.generate(
        &mut chunk2, -64, 384, "patch", &mut g, pos(0, 100, 0), &registry, 0, 8,
    ));
}

#[test]
fn random_selector_falls_back_to_the_default() {
    let registry = empty_registry();
    let selector = worldgen::random_selector::RandomFeature {
        features: vec![worldgen::random_selector::RandomFeatureEntry {
            feature: PlacedFeatureWrapper::Direct(PlacedFeature {
                feature: Feature::Inlined(simple_stone()),
                placement: Vec::new(),
            }),
            // A chance of zero never passes: the entry is always skipped.
            chance: 0,
        }],
        default: Box::new(PlacedFeatureWrapper::Direct(PlacedFeature {
            feature: Feature::Inlined(ConfiguredFeature::SimpleBlock(SimpleBlockFeature {
                to_place: BlockStateProvider::SimpleStateProvider(SimpleStateProvider {
                    state: ChunkBlockState::new("dirt").unwrap(),
                }),
                schedule_tick: None,
            })),
            placement: Vec::new(),
        })),
    };
    let mut chunk = empty_chunk();
    let mut g = RandomGenerator::legacy_from_seed(0);
    let placed = selector.generate(
        &mut chunk, -64, 384, "sel", &mut g, pos(4, 90, 4), &registry, 0, 8,
    );
    assert!(placed);
    assert_eq!(chunk.get_block_state(&pos(4, 90, 4)).block_id, BLOCK_DIRT);
}

#[test]
fn exhausted_recursion_budget_reports_no_placement() {
    let registry = empty_registry();
    let feature = PlacedFeature {
        feature: Feature::Inlined(simple_stone()),
        placement: Vec::new(),
    };
    let mut chunk = empty_chunk();
    let writes_before = chunk.cells.len();
    let mut g = RandomGenerator::legacy_from_seed(0);
    assert!(!feature.generate(
        &mut chunk, -64, 384, "spent", &mut g, pos(0, 0, 0), &registry, 0, 0,
    ));
    assert_eq!(chunk.cells.len(), writes_before);
}

#[test]
fn fallen_tree_stump_writes_the_trunk_pick() {
    let fallen = worldgen::fallen_tree::FallenTreeFeature {
        trunk_provider: BlockStateProvider::SimpleStateProvider(SimpleStateProvider {
            state: ChunkBlockState::new("oak_log").unwrap(),
        }),
    };
    let mut chunk = empty_chunk();
    let mut g = RandomGenerator::legacy_from_seed(0);
    fallen.gen_stump(&mut chunk, &mut g, pos(2, 30, 2), 0);
    assert_eq!(
        chunk.get_block_state(&pos(2, 30, 2)).block_id,
        worldgen::block::BLOCK_OAK_LOG
    );
}

#[test]
fn wrapper_resolves_named_placed_features() {
    let inner = PlacedFeature {
        feature: Feature::Inlined(simple_stone()),
        placement: Vec::new(),
    };
    let registry = FeatureRegistry {
        placed: vec![(String::from("speck"), inner)],
        configured: Vec::new(),
    };
    let by_name = PlacedFeatureWrapper::Named(String::from("speck"));
    assert!(by_name.get(&registry).is_some());
    let missing = PlacedFeatureWrapper::Named(String::from("nothing_here"));
    assert!(missing.get(&registry).is_none());
}

#[test]
fn pipeline_stages_compose_on_the_previous_stage_positions() {
    // Two offset stages in sequence: the second reads the first's output
    // unchanged, so the offsets add up.
    let registry = empty_registry();
    let feature = PlacedFeature {
        feature: Feature::Inlined(simple_stone()),
        placement: vec![
            PlacementModifier::RandomOffset(
                worldgen::placed_features::RandomOffsetPlacementModifier {
                    xz_spread: IntProvider::Constant(3),
                    y_spread: IntProvider::Constant(0),
                },
            ),
            PlacementModifier::RandomOffset(
                worldgen::placed_features::RandomOffsetPlacementModifier {
                    xz_spread: IntProvider::Constant(0),
                    y_spread: IntProvider::Constant(2),
                },
            ),
        ],
    };
    let mut chunk = empty_chunk();
    let mut g = RandomGenerator::legacy_from_seed(0);
    let placed = feature.generate(
        &mut chunk, -64, 384, "wells", &mut g, pos(10, 50, 10), &registry, 0, 8,
    );
    assert!(placed);
    assert_eq!(chunk.get_block_state(&pos(13, 52, 13)).block_id, BLOCK_STONE);
}
