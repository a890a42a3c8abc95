use native_boxed::quark::Quark;

#[test]
fn quark_round_trips_through_the_raw_handle() {
    let q: Quark = Quark::from_glib(42);
    assert_eq!(q.to_glib(), 42);
    let again: Quark = Quark::from_glib(q.to_glib());
    assert_eq!(again, q);
}

#[test]
fn quark_zero_is_preserved() {
    let q: Quark = Quark::from_glib(0);
    assert_eq!(q.to_glib(), 0);
}
