use exshape_shape::{ElixirPoly, ElixirRing, Point, Poly, PolyError, Ring};

fn pt(x: f64, y: f64) -> Point {
    Point::new(x.to_bits(), y.to_bits())
}

fn square_points(origin: f64, side: f64) -> Vec<Point> {
    vec![
        pt(origin, origin),
        pt(origin + side, origin),
        pt(origin + side, origin + side),
        pt(origin, origin + side),
        pt(origin, origin),
    ]
}

fn r1_points() -> Vec<Point> {
    square_points(0.0, 10.0)
}

fn r2_points() -> Vec<Point> {
    square_points(2.0, 1.5)
}

fn r3_points() -> Vec<Point> {
    square_points(5.0, 2.25)
}

fn decoded_three() -> ElixirPoly {
    let rings = vec![
        ElixirRing::new(r1_points()),
        ElixirRing::new(r2_points()),
        ElixirRing::new(r3_points()),
    ];
    ElixirPoly::decode(rings).expect("three rings decode")
}

fn ring_points_of(e: &ElixirPoly) -> Vec<Vec<Point>> {
    e.rings().iter().map(|r| r.points().clone()).collect()
}

#[test]
fn decode_three_rings_keeps_order() {
    let poly = Poly::from(decoded_three());
    assert_eq!(poly.ring_count(), 3);
    assert_eq!(poly.first_ring().points(), &r1_points());
    let external = ElixirPoly::from(poly);
    assert_eq!(
        ring_points_of(&external),
        vec![r1_points(), r2_points(), r3_points()]
    );
}

#[test]
fn decode_empty_is_refused() {
    let rings: Vec<ElixirRing> = Vec::new();
    assert_eq!(ElixirPoly::decode(rings), Err(PolyError::BadArg));
}

#[test]
fn promote_then_push_encodes_as_decoded() {
    let mut poly = Poly::from(Ring::new(r1_points()));
    poly.push(Ring::new(r2_points()));
    poly.push(Ring::new(r3_points()));
    let built = ElixirPoly::from(poly);
    assert_eq!(built, decoded_three());
    assert_eq!(ring_points_of(&built), ring_points_of(&decoded_three()));
}

#[test]
fn promote_holds_one_ring() {
    let poly = Poly::from(Ring::new(r2_points()));
    assert_eq!(poly.ring_count(), 1);
    assert_eq!(poly.first_ring(), &Ring::new(r2_points()));
}

#[test]
fn push_appends_and_keeps_prefix() {
    let mut poly = Poly::from(Ring::new(r1_points()));
    poly.push(Ring::new(r2_points()));
    assert_eq!(poly.ring_count(), 2);
    poly.push(Ring::new(r3_points()));
    assert_eq!(poly.ring_count(), 3);
    assert_eq!(poly.first_ring().points(), &r1_points());
    let external = ElixirPoly::from(poly);
    let rings = ring_points_of(&external);
    assert_eq!(rings[0], r1_points());
    assert_eq!(rings[1], r2_points());
    assert_eq!(rings[2], r3_points());
}

#[test]
fn push_empty_ring_is_kept() {
    let mut poly = Poly::from(Ring::new(r1_points()));
    poly.push(Ring::new(Vec::new()));
    assert_eq!(poly.ring_count(), 2);
    let external = ElixirPoly::from(poly);
    assert_eq!(ring_points_of(&external), vec![r1_points(), Vec::new()]);
}

#[test]
fn round_trip_through_external_form() {
    let mut poly = Poly::from(Ring::new(r3_points()));
    poly.push(Ring::new(r1_points()));
    let external = ElixirPoly::from(poly);
    let rings: Vec<ElixirRing> = ring_points_of(&external)
        .into_iter()
        .map(ElixirRing::new)
        .collect();
    let back = Poly::from(ElixirPoly::decode(rings).expect("non-empty rings decode"));
    let mut expected = Poly::from(Ring::new(r3_points()));
    expected.push(Ring::new(r1_points()));
    assert_eq!(back, expected);
}

#[test]
fn decode_single_ring() {
    let decoded = ElixirPoly::decode(vec![ElixirRing::new(r2_points())]).expect("one ring");
    let poly = Poly::from(decoded);
    assert_eq!(poly.ring_count(), 1);
    assert_eq!(poly.first_ring().points(), &r2_points());
}

#[test]
fn ring_conversions_keep_points() {
    let internal = Ring::from(ElixirRing::new(r2_points()));
    assert_eq!(internal.points(), &r2_points());
    let external = ElixirRing::from(internal);
    assert_eq!(external.points(), &r2_points());
    assert_eq!(external, ElixirRing::new(r2_points()));
}

#[test]
fn point_keeps_coordinate_bits() {
    let p = pt(-1.25, 3.5);
    assert_eq!(f64::from_bits(p.x_bits), -1.25);
    assert_eq!(f64::from_bits(p.y_bits), 3.5);
}
