use leafy_hollows::buffer::{Buffer, InstanceRecord, Scalar4, CHANNEL_WIDTH, GROWTH_STEP};

fn vec4(x: f32, y: f32, z: f32, w: f32) -> Scalar4 {
    Scalar4 { x: x.to_bits(), y: y.to_bits(), z: z.to_bits(), w: w.to_bits() }
}

fn rgba(r: f32, g: f32, b: f32, a: f32) -> Scalar4 {
    vec4(r, g, b, a)
}

#[test]
fn fresh_buffer_is_empty() {
    let b = Buffer::new();
    assert_eq!(b.count(), 0);
    assert_eq!(b.capacity(), 0);
    assert_eq!(b.destination_store().len(), 0);
    assert_eq!(b.source_or_color_store().len(), 0);
    assert_eq!(b.shape_transform_store().len(), 0);
}

#[test]
fn example_scenario_three_rectangles() {
    // Initialize (capacity 0), append three rectangle instances, read back
    // slot 1, then flush: the draw call gets instance count 3 and the
    // buffer is empty again.
    let mut b = Buffer::new();
    assert_eq!(b.capacity(), 0);
    let destinations = [
        vec4(0.0, 0.0, 1.0, 1.0),
        vec4(1.0, 1.0, 1.0, 1.0),
        vec4(2.0, 2.0, 1.0, 1.0),
    ];
    let color = rgba(1.0, 0.0, 0.0, 1.0);
    let rotations = [0.0f32, 0.1, 0.2];
    for k in 0..3 {
        let transform = vec4(0.0, rotations[k], 0.0, 0.0);
        b.add_instance(destinations[k], color, transform);
    }
    assert_eq!(b.count(), 3);
    assert!(b.capacity() >= 3);
    let slot1 = b.record_at(1);
    assert_eq!(slot1.destination, vec4(1.0, 1.0, 1.0, 1.0));
    let drawn = b.flush_and_reset();
    assert_eq!(drawn, 3);
    assert_eq!(b.count(), 0);
}

#[test]
fn count_tracks_appends() {
    let mut b = Buffer::new();
    for n in 1..=25u32 {
        b.add_instance(
            vec4(0.0, 0.0, 0.0, 0.0),
            rgba(0.0, 0.0, 0.0, 0.0),
            vec4(0.0, 0.0, 0.0, 0.0),
        );
        assert_eq!(b.count(), n as usize);
        assert!(b.capacity() >= n as usize);
    }
}

#[test]
fn capacity_grows_by_fixed_step() {
    let mut b = Buffer::new();
    let zero = vec4(0.0, 0.0, 0.0, 0.0);
    for _ in 0..GROWTH_STEP {
        b.add_instance(zero, zero, zero);
    }
    assert_eq!(b.capacity(), GROWTH_STEP);
    b.add_instance(zero, zero, zero);
    assert_eq!(b.capacity(), 2 * GROWTH_STEP);
    assert_eq!(b.count(), GROWTH_STEP + 1);
}

#[test]
fn capacity_is_monotone() {
    let mut b = Buffer::new();
    let zero = vec4(0.0, 0.0, 0.0, 0.0);
    let mut last = b.capacity();
    for _ in 0..35 {
        b.add_instance(zero, zero, zero);
        assert!(b.capacity() >= last);
        last = b.capacity();
    }
    b.flush_and_reset();
    assert_eq!(b.capacity(), last);
}

#[test]
fn flush_and_reset_is_idempotent_on_capacity() {
    let mut b = Buffer::new();
    let zero = vec4(0.0, 0.0, 0.0, 0.0);
    for _ in 0..7 {
        b.add_instance(zero, zero, zero);
    }
    let first = b.flush_and_reset();
    assert_eq!(first, 7);
    let capacity_after_first = b.capacity();
    // Immediately flushing again draws zero instances and keeps capacity.
    let second = b.flush_and_reset();
    assert_eq!(second, 0);
    assert_eq!(b.capacity(), capacity_after_first);
    assert_eq!(b.count(), 0);
}

#[test]
fn records_survive_growth() {
    // Slots written before a growth step keep their contents afterwards.
    let mut b = Buffer::new();
    for k in 0..(2 * GROWTH_STEP + 3) {
        let d = vec4(k as f32, 0.5, 1.5, -2.0);
        let s = rgba(0.25, k as f32, 0.75, 1.0);
        let t = vec4(2.0, 0.0, k as f32, 0.0);
        b.add_instance(d, s, t);
    }
    for k in 0..(2 * GROWTH_STEP + 3) {
        let r = b.record_at(k);
        assert_eq!(r.destination, vec4(k as f32, 0.5, 1.5, -2.0));
        assert_eq!(r.source_or_color, rgba(0.25, k as f32, 0.75, 1.0));
        assert_eq!(r.shape_transform, vec4(2.0, 0.0, k as f32, 0.0));
    }
}

#[test]
fn record_fidelity_bit_for_bit() {
    // The buffer hands back exactly the 32-bit words that went in.
    let mut b = Buffer::new();
    let d = vec4(0.125, -7.25, 3.5e8, f32::MIN_POSITIVE);
    let s = rgba(0.6, 0.2, 0.9, 0.7);
    let t = vec4(1.0, 0.0, -0.0, 42.0);
    b.add_instance(d, s, t);
    let r: InstanceRecord = b.record_at(0);
    assert_eq!(f32::from_bits(r.destination.x), 0.125);
    assert_eq!(f32::from_bits(r.destination.y), -7.25);
    assert_eq!(f32::from_bits(r.destination.z), 3.5e8);
    assert_eq!(f32::from_bits(r.destination.w), f32::MIN_POSITIVE);
    assert_eq!(r.source_or_color, s);
    assert_eq!(r.shape_transform, t);
}

#[test]
fn stores_stay_in_step() {
    // The three backing stores never desynchronize in length.
    let mut b = Buffer::new();
    let zero = vec4(0.0, 0.0, 0.0, 0.0);
    for _ in 0..23 {
        b.add_instance(zero, zero, zero);
        let len = CHANNEL_WIDTH * b.capacity();
        assert_eq!(b.destination_store().len(), len);
        assert_eq!(b.source_or_color_store().len(), len);
        assert_eq!(b.shape_transform_store().len(), len);
        assert!(b.count() <= b.capacity());
    }
    b.flush_and_reset();
    let len = CHANNEL_WIDTH * b.capacity();
    assert_eq!(b.destination_store().len(), len);
    assert_eq!(b.source_or_color_store().len(), len);
    assert_eq!(b.shape_transform_store().len(), len);
}

#[test]
fn stores_hold_flat_words_in_slot_order() {
    let mut b = Buffer::new();
    let d = Scalar4 { x: 1, y: 2, z: 3, w: 4 };
    let s = Scalar4 { x: 5, y: 6, z: 7, w: 8 };
    let t = Scalar4 { x: 9, y: 10, z: 11, w: 12 };
    b.add_instance(d, s, t);
    let dest = b.destination_store();
    assert_eq!(&dest[0..4], &[1, 2, 3, 4]);
    assert_eq!(&b.source_or_color_store()[0..4], &[5, 6, 7, 8]);
    assert_eq!(&b.shape_transform_store()[0..4], &[9, 10, 11, 12]);
}

#[test]
fn flush_keeps_store_contents() {
    let mut b = Buffer::new();
    let d = Scalar4 { x: 11, y: 22, z: 33, w: 44 };
    b.add_instance(d, d, d);
    let before = b.destination_store().clone();
    let n = b.flush_and_reset();
    assert_eq!(n, 1);
    // Storage is retained on reset, so the caller may still upload the
    // flushed slots right after the call.
    assert_eq!(b.destination_store(), &before);
}
