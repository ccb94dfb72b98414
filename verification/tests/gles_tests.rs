use k1::gles::{
    check_batch_capacity, check_rgba_len, fallback_config_attribs, fallback_config_label, quad_indices,
    ConfigSearch, ConfigStep, QuadBatch, EGL_NONE, EGL_OPENGL_ES3_BIT, ERR_EMPTY_BATCH, ERR_NO_CONFIG,
    FALLBACK_CONFIG_COUNT,
};

#[test]
fn test_batch_create() {
    assert!(check_batch_capacity(400, 600).is_ok());
    let b: QuadBatch<400, 600> = QuadBatch::new();
    assert_eq!(b.vertex_count(), 0);
    assert_eq!(b.index_count(), 0);
}

#[test]
fn empty_batch_capacity_is_refused() {
    assert_eq!(check_batch_capacity(0, 6), Err(ERR_EMPTY_BATCH));
    assert_eq!(check_batch_capacity(4, 0), Err(ERR_EMPTY_BATCH));
}

#[test]
fn test_batch_draw_quad() {
    let mut b: QuadBatch<40, 60> = QuadBatch::new();
    b.begin_frame();
    assert_eq!(b.reserve_quad(), Some(0));
    assert_eq!(b.vertex_count(), 4);
    assert_eq!(b.index_count(), 6);
}

#[test]
fn test_batch_overflow_silent() {
    let mut b: QuadBatch<4, 6> = QuadBatch::new();
    b.begin_frame();
    assert_eq!(b.reserve_quad(), Some(0));
    assert_eq!(b.reserve_quad(), None);
    assert_eq!(b.vertex_count(), 4);
}

#[test]
fn quad_index_pattern() {
    let v = quad_indices::<8, 12>();
    assert_eq!(v, vec![0, 1, 2, 0, 2, 3, 4, 5, 6, 4, 6, 7]);
    let w = quad_indices::<8, 10>();
    assert_eq!(w, vec![0, 1, 2, 0, 2, 3, 0, 0, 0, 0]);
    let x = quad_indices::<5, 13>();
    assert_eq!(x, vec![0, 1, 2, 0, 2, 3, 0, 0, 0, 0, 0, 0, 0]);
}

#[test]
fn rgba_size_check() {
    assert!(check_rgba_len(2, 3, 24).is_ok());
    assert_eq!(check_rgba_len(2, 3, 23), Err("RGBA size mismatch"));
}

#[test]
fn config_search_takes_first_accepted() {
    let mut s = ConfigSearch::new();
    assert_eq!(s.next(), ConfigStep::Try(0));
    s.record(false);
    assert_eq!(s.next(), ConfigStep::Try(1));
    s.record(false);
    assert_eq!(s.next(), ConfigStep::Try(2));
    s.record(true);
    assert_eq!(s.next(), ConfigStep::Chosen(2));
    assert_eq!(fallback_config_label(2), "Config3: RGBA8 only");
}

#[test]
fn config_search_exhausts() {
    let mut s = ConfigSearch::new();
    for i in 0..FALLBACK_CONFIG_COUNT {
        assert_eq!(s.next(), ConfigStep::Try(i));
        s.record(false);
    }
    assert_eq!(s.next(), ConfigStep::Exhausted(ERR_NO_CONFIG));
}

#[test]
fn fallback_attribs_end_with_none() {
    for i in 0..FALLBACK_CONFIG_COUNT {
        assert_eq!(*fallback_config_attribs(i).last().unwrap(), EGL_NONE);
    }
    assert_eq!(fallback_config_attribs(0).len(), 17);
    assert_eq!(fallback_config_attribs(3)[3], EGL_OPENGL_ES3_BIT);
    assert_eq!(fallback_config_attribs(4).len(), 5);
}
