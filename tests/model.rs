use libmf::{save_result, Error, FactorLayout, Float32, Float64, Loss};

#[test]
fn loss_codes_match_the_engine() {
    let expected = [
        (Loss::RealL2, 0),
        (Loss::RealL1, 1),
        (Loss::RealKL, 2),
        (Loss::BinaryLog, 5),
        (Loss::BinaryL2, 6),
        (Loss::BinaryL1, 7),
        (Loss::OneClassRow, 10),
        (Loss::OneClassCol, 11),
        (Loss::OneClassL2, 12),
    ];
    for (loss, code) in expected {
        assert_eq!(loss.code(), code);
        assert_eq!(Loss::from_code(code), Some(loss));
    }
}

#[test]
fn unknown_loss_codes_are_rejected() {
    for code in [-1, 3, 4, 8, 9, 13, i32::MAX, i32::MIN] {
        assert_eq!(Loss::from_code(code), None);
    }
}

#[test]
fn error_messages() {
    assert_eq!(Error::Io.message(), "cannot open file");
    assert_eq!(Error::Unknown.message(), "unknown error");
    assert_eq!(Error::Parameter("bad k".to_string()).message(), "bad k");
}

#[test]
fn save_status_maps_to_io_error() {
    assert_eq!(save_result(0), Ok(()));
    assert_eq!(save_result(1), Err(Error::Io));
    assert_eq!(save_result(-1), Err(Error::Io));
}

#[test]
fn float_comparisons_match_native_floats() {
    let values = [
        0.0f32,
        -0.0,
        1.0,
        -1.0,
        0.1,
        f32::MIN_POSITIVE,
        -f32::MIN_POSITIVE,
        f32::from_bits(1),
        f32::from_bits(0x8000_0001),
        f32::MAX,
        f32::MIN,
        f32::INFINITY,
        f32::NEG_INFINITY,
        f32::NAN,
        -f32::NAN,
        f32::from_bits(0x7F80_0001),
        f32::from_bits(0xFFFF_FFFF),
    ];
    for x in values {
        let f = Float32 { bits: x.to_bits() };
        assert_eq!(f.is_nonnegative(), x >= 0.0, "{:?}", x);
        assert_eq!(f.is_positive(), x > 0.0, "{:?}", x);
    }
    let doubles = [0.0f64, -0.0, 1e-300, -1e-300, f64::from_bits(1), 2.0, f64::NAN, f64::INFINITY];
    for x in doubles {
        assert_eq!(Float64 { bits: x.to_bits() }.is_zero(), x == 0.0, "{:?}", x);
    }
}

#[test]
fn layout_rejects_negative_counts() {
    assert!(FactorLayout::new(-1, 2, 8).is_none());
    assert!(FactorLayout::new(2, -1, 8).is_none());
    assert!(FactorLayout::new(2, 2, -8).is_none());
    assert!(FactorLayout::new(0, 0, 0).is_some());
    assert!(FactorLayout::new(i32::MAX, i32::MAX, i32::MAX).is_some());
}

#[test]
fn layout_of_an_empty_model_has_empty_factor_views() {
    let layout = FactorLayout::new(0, 0, 8).unwrap();
    assert_eq!(layout.p_len(), 0);
    assert_eq!(layout.q_len(), 0);
    assert_eq!(layout.p_range(0), None);
    assert_eq!(layout.q_range(0), None);
}

#[test]
fn layout_lengths_and_ranges() {
    let layout = FactorLayout::new(2, 3, 8).unwrap();
    assert_eq!((layout.rows(), layout.columns(), layout.factors()), (2, 3, 8));
    assert_eq!(layout.p_len(), 16);
    assert_eq!(layout.q_len(), 24);
    assert_eq!(layout.p_range(0), Some((0, 8)));
    assert_eq!(layout.p_range(1), Some((8, 16)));
    assert_eq!(layout.p_range(2), None);
    assert_eq!(layout.p_range(-1), None);
    assert_eq!(layout.q_range(2), Some((16, 24)));
    assert_eq!(layout.q_range(3), None);
    assert_eq!(layout.q_range(1000), None);
}

#[test]
fn row_ranges_are_the_chunks_of_the_buffer() {
    let layout = FactorLayout::new(3, 2, 4).unwrap();
    let p: Vec<f32> = (0..layout.p_len()).map(|i| i as f32 * 0.5).collect();
    let chunks: Vec<&[f32]> = p.chunks(layout.factors() as usize).collect();
    assert_eq!(chunks.len(), layout.rows() as usize);
    let mut joined = Vec::new();
    for (i, chunk) in chunks.iter().enumerate() {
        let (start, end) = layout.p_range(i as i32).unwrap();
        assert_eq!(*chunk, &p[start..end]);
        assert_eq!(chunk.len(), 4);
        joined.extend_from_slice(chunk);
    }
    assert_eq!(joined, p);
}
