use cgmath::{Matrix4, Vector3 as Vec3, Vector4 as Vec4};
use toy_engine::component::Vector4;
use toy_engine::renderer::frontend::batch::{QuadBatchData, MAX_BATCH_QUADS};
use toy_engine::QuadBatcher;

const QUAD_INDICES: [u32; 6] = [0, 1, 2, 2, 3, 0];

fn bits(x: f32, y: f32, z: f32, w: f32) -> Vector4 {
    Vector4::new(x.to_bits(), y.to_bits(), z.to_bits(), w.to_bits())
}

fn floats(v: Vector4) -> (f32, f32, f32, f32) {
    (
        f32::from_bits(v.x),
        f32::from_bits(v.y),
        f32::from_bits(v.z),
        f32::from_bits(v.w),
    )
}

/// The corners of the unit quad, scaled first and then moved.
fn corners(position: (f32, f32, f32), scale: (f32, f32, f32)) -> [Vector4; 4] {
    let translation = Matrix4::from_translation(Vec3::new(position.0, position.1, position.2));
    let scaling = Matrix4::from_nonuniform_scale(scale.0, scale.1, scale.2);
    let unit = [
        Vec4::new(-1.0f32, -1.0, 0.0, 1.0),
        Vec4::new(1.0, -1.0, 0.0, 1.0),
        Vec4::new(1.0, 1.0, 0.0, 1.0),
        Vec4::new(-1.0, 1.0, 0.0, 1.0),
    ];
    let mut out = [Vector4::new(0, 0, 0, 0); 4];
    for (slot, corner) in out.iter_mut().zip(unit.iter()) {
        let moved = translation * scaling * *corner;
        *slot = bits(moved.x, moved.y, moved.z, moved.w);
    }
    out
}

fn unit_corners() -> [Vector4; 4] {
    corners((0.0, 0.0, 0.0), (1.0, 1.0, 1.0))
}

fn quad_counts(batcher: &QuadBatcher) -> Vec<usize> {
    batcher.batches().iter().map(|b| b.quad_count()).collect()
}

fn assert_geometry(batch: &QuadBatchData) {
    let quads = batch.quad_count();
    assert_eq!(batch.vertices().len(), 4 * quads);
    assert_eq!(batch.indices().len(), 6 * quads);
    for q in 0..quads {
        for k in 0..6 {
            assert_eq!(batch.indices()[6 * q + k], 4 * q as u32 + QUAD_INDICES[k]);
        }
    }
}

#[test]
fn five_quads_at_two_per_batch_make_three_batches() {
    let mut batcher = QuadBatcher::new(2);
    for i in 0..5 {
        let color = bits(i as f32 / 5.0, 0.0, 0.0, 1.0);
        batcher.add_quad(unit_corners(), color);
    }
    assert_eq!(batcher.batches().len(), 3);
    assert_eq!(quad_counts(&batcher), vec![2, 2, 1]);
    assert_eq!(batcher.quad_count(), 1);
    assert_eq!(batcher.current_batch(), 2);
    for (j, batch) in batcher.batches().iter().enumerate() {
        assert_geometry(batch);
        for (k, vertex) in batch.vertices().iter().enumerate() {
            let quad = 2 * j + k / 4;
            assert_eq!(vertex.color, bits(quad as f32 / 5.0, 0.0, 0.0, 1.0));
        }
    }
}

#[test]
fn no_quads_make_no_batches() {
    let batcher = QuadBatcher::new(10);
    assert_eq!(batcher.batches().len(), 0);
    assert_eq!(batcher.quad_count(), 0);
    assert_eq!(batcher.current_batch(), 0);
    assert_eq!(batcher.max_quads(), 10);
}

#[test]
fn scale_comes_before_translation() {
    let mut batcher = QuadBatcher::new(10);
    let color = bits(1.0, 0.0, 0.0, 1.0);
    batcher.add_quad(corners((5.0, 0.0, 0.0), (2.0, 1.0, 1.0)), color);
    let vertices = batcher.batches()[0].vertices();
    assert_eq!(vertices.len(), 4);
    assert_eq!(floats(vertices[0].pos), (3.0, -1.0, 0.0, 1.0));
    assert_eq!(floats(vertices[1].pos), (7.0, -1.0, 0.0, 1.0));
    assert_eq!(floats(vertices[2].pos), (7.0, 1.0, 0.0, 1.0));
    assert_eq!(floats(vertices[3].pos), (3.0, 1.0, 0.0, 1.0));
    for vertex in vertices.iter() {
        assert_eq!(floats(vertex.color), (1.0, 0.0, 0.0, 1.0));
    }
    assert_eq!(batcher.batches()[0].indices(), &vec![0, 1, 2, 2, 3, 0]);
}

#[test]
fn batch_count_is_the_quotient_rounded_up() {
    for k in 1u32..=7 {
        for n in 0usize..=30 {
            let mut batcher = QuadBatcher::new(k);
            for _ in 0..n {
                batcher.add_quad(unit_corners(), bits(0.0, 0.0, 0.0, 0.0));
            }
            let expected = (n + k as usize - 1) / k as usize;
            assert_eq!(batcher.batches().len(), expected, "k = {}, n = {}", k, n);
            let counts = quad_counts(&batcher);
            for (j, count) in counts.iter().enumerate() {
                if j + 1 < counts.len() {
                    assert_eq!(*count, k as usize);
                } else {
                    assert_eq!(*count, n - j * k as usize);
                    assert!(*count >= 1 && *count <= k as usize);
                }
            }
            for batch in batcher.batches().iter() {
                assert_geometry(batch);
            }
        }
    }
}

#[test]
fn indices_follow_the_quad_pattern() {
    let mut batcher = QuadBatcher::new(3);
    for _ in 0..3 {
        batcher.add_quad(unit_corners(), bits(0.5, 0.5, 0.5, 1.0));
    }
    assert_eq!(batcher.batches().len(), 1);
    assert_eq!(
        batcher.batches()[0].indices(),
        &vec![0, 1, 2, 2, 3, 0, 4, 5, 6, 6, 7, 4, 8, 9, 10, 10, 11, 8]
    );
    assert_eq!(batcher.batches()[0].vertices().len(), 12);
}

#[test]
fn clear_leaves_a_batcher_like_a_new_one() {
    let mut used = QuadBatcher::new(2);
    for _ in 0..5 {
        used.add_quad(unit_corners(), bits(1.0, 1.0, 1.0, 1.0));
    }
    used.clear();
    let mut fresh = QuadBatcher::new(2);
    assert_eq!(used.batches().len(), 0);
    assert_eq!(used.quad_count(), 0);
    assert_eq!(used.current_batch(), 0);
    assert_eq!(used.max_quads(), fresh.max_quads());
    for i in 0..5 {
        let c = corners((i as f32, 1.0, 0.0), (0.5, 2.0, 1.0));
        let color = bits(0.0, i as f32, 0.0, 1.0);
        used.add_quad(c, color);
        fresh.add_quad(c, color);
        assert_eq!(used.quad_count(), fresh.quad_count());
        assert_eq!(used.current_batch(), fresh.current_batch());
        assert_eq!(used.batches().len(), fresh.batches().len());
        for (a, b) in used.batches().iter().zip(fresh.batches().iter()) {
            assert_eq!(a.vertices(), b.vertices());
            assert_eq!(a.indices(), b.indices());
        }
    }
    assert_eq!(quad_counts(&used), vec![2, 2, 1]);
}

#[test]
fn clear_twice_is_clear_once() {
    let mut batcher = QuadBatcher::new(4);
    batcher.add_quad(unit_corners(), bits(0.0, 0.0, 0.0, 1.0));
    batcher.clear();
    batcher.clear();
    assert_eq!(batcher.batches().len(), 0);
    assert_eq!(batcher.quad_count(), 0);
}

#[test]
fn one_quad_per_batch_at_a_limit_of_one() {
    let mut batcher = QuadBatcher::new(1);
    for n in 1..=6usize {
        batcher.add_quad(unit_corners(), bits(n as f32, 0.0, 0.0, 1.0));
        assert_eq!(batcher.batches().len(), n);
        let last = &batcher.batches()[n - 1];
        assert_eq!(last.vertices().len(), 4);
        assert_eq!(last.indices().len(), 6);
        assert_eq!(last.indices(), &vec![0, 1, 2, 2, 3, 0]);
        assert_eq!(last.vertices()[0].color, bits(n as f32, 0.0, 0.0, 1.0));
        assert_eq!(batcher.quad_count(), 1);
    }
}

#[test]
fn a_limit_of_zero_gives_every_quad_its_own_batch() {
    let mut batcher = QuadBatcher::new(0);
    for n in 1..=4usize {
        batcher.add_quad(unit_corners(), bits(0.0, 0.0, 0.0, 0.0));
        assert_eq!(batcher.batches().len(), n);
        assert_eq!(quad_counts(&batcher), vec![1; n]);
    }
    assert_eq!(batcher.max_quads(), 0);
}

#[test]
fn a_limit_above_the_largest_batch_is_kept_for_few_quads() {
    let mut batcher = QuadBatcher::new(u32::MAX);
    for _ in 0..3 {
        batcher.add_quad(unit_corners(), bits(0.0, 0.0, 0.0, 0.0));
    }
    assert_eq!(quad_counts(&batcher), vec![3]);
    assert_eq!(MAX_BATCH_QUADS, u32::MAX / 6);
}

#[test]
fn taking_the_batches_empties_the_batcher() {
    let mut batcher = QuadBatcher::new(2);
    for _ in 0..3 {
        batcher.add_quad(unit_corners(), bits(0.0, 0.0, 0.0, 0.0));
    }
    let batches = batcher.take_batches();
    assert_eq!(batches.len(), 2);
    assert_eq!(batches[0].quad_count(), 2);
    assert_eq!(batches[1].quad_count(), 1);
    assert_eq!(batcher.batches().len(), 0);
    assert_eq!(batcher.quad_count(), 0);
    assert_eq!(batcher.current_batch(), 0);
}

#[test]
fn a_batch_on_its_own_grows_quad_by_quad() {
    let mut batch = QuadBatchData::new(8);
    assert_eq!(batch.quad_count(), 0);
    batch.add(unit_corners(), bits(0.0, 0.0, 1.0, 1.0));
    batch.add(corners((1.0, 2.0, 3.0), (1.0, 1.0, 1.0)), bits(0.0, 1.0, 0.0, 1.0));
    assert_eq!(batch.quad_count(), 2);
    assert_eq!(batch.indices(), &vec![0, 1, 2, 2, 3, 0, 4, 5, 6, 6, 7, 4]);
    assert_eq!(floats(batch.vertices()[4].pos), (0.0, 1.0, 3.0, 1.0));
    assert_eq!(floats(batch.vertices()[0].pos), (-1.0, -1.0, 0.0, 1.0));
}
