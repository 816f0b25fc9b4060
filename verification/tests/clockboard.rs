use zonebuilder::{
    clockboard, Clockboard, ClockboardError, CoordinateModel, Params, Point, Scalar, Sweep,
};

fn scalar(v: f64) -> Scalar {
    Scalar::from_bits(v.to_bits())
}

fn origin() -> Point {
    Point::new(scalar(0.0), scalar(0.0))
}

fn params(num_segments: usize, distances: &[f64], num_vertices_arc: usize) -> Params {
    Params {
        num_segments,
        distances: distances.iter().map(|d| scalar(*d)).collect(),
        num_vertices_arc,
        precision: 6,
        projected: false,
    }
}

fn labels(board: &Clockboard) -> Vec<String> {
    board.zones.iter().map(|z| z.label.clone()).collect()
}

#[test]
fn test_number_of_zones() {
    let params = Params::default();
    let made = clockboard(origin(), params);
    if let Ok(board) = made {
        assert_eq!(49, board.zones.len());
    } else {
        panic!("not a feature collection");
    }
}

#[test]
fn zone_count_follows_rings_and_segments() {
    let cases: [(usize, usize, usize); 8] =
        [(12, 5, 49), (1, 5, 5), (1, 1, 1), (12, 1, 1), (2, 3, 5), (3, 2, 4), (7, 26, 176), (1, 26, 26)];
    for (segments, rings, want) in cases {
        let distances: Vec<f64> = (1..=rings).map(|k| k as f64 * 0.5).collect();
        let board = clockboard(origin(), params(segments, &distances, 4)).unwrap();
        assert_eq!(board.zones.len(), want);
        let per_ring = if segments == 1 { 1 } else { segments };
        assert_eq!(board.zones.len(), 1 + (rings - 1) * per_ring);
    }
}

#[test]
fn single_segment_gives_circle_and_annulus() {
    let board = clockboard(origin(), params(1, &[1.0, 3.0], 10)).unwrap();
    assert_eq!(board.zones.len(), 2);
    let inner = &board.zones[0];
    assert_eq!(inner.label, "A");
    assert!(inner.holes.is_empty());
    assert_eq!(inner.ring.len(), 11);
    assert!(inner.ring.iter().all(|v| v.radius == scalar(1.0) && v.sweep == Sweep::Circle));
    let annulus = &board.zones[1];
    assert_eq!(annulus.label, "B");
    assert_eq!(annulus.holes.len(), 1);
    assert!(annulus.ring.iter().all(|v| v.radius == scalar(3.0)));
    assert!(annulus.holes[0].iter().all(|v| v.radius == scalar(1.0)));
    assert_eq!(annulus.holes[0], inner.ring);
}

#[test]
fn labels_of_ring_b_run_from_01_to_12() {
    let board = clockboard(origin(), Params::default()).unwrap();
    let got: Vec<String> = labels(&board)[1..13].to_vec();
    let want: Vec<&str> =
        vec!["B01", "B02", "B03", "B04", "B05", "B06", "B07", "B08", "B09", "B10", "B11", "B12"];
    assert_eq!(got, want);
}

#[test]
fn labels_follow_rings_then_segments() {
    let board = clockboard(origin(), Params::default()).unwrap();
    let got = labels(&board);
    assert_eq!(got[0], "A");
    let mut i = 1;
    for letter in ['B', 'C', 'D', 'E'] {
        for seg in 1..=12 {
            assert_eq!(got[i], format!("{}{:02}", letter, seg));
            i += 1;
        }
    }
    assert_eq!(i, got.len());
    let mut sorted = got.clone();
    sorted.sort();
    sorted.dedup();
    assert_eq!(sorted.len(), got.len());
}

#[test]
fn every_ring_is_closed() {
    for segments in [1usize, 2, 12] {
        let board = clockboard(origin(), params(segments, &[1.0, 3.0, 6.0], 5)).unwrap();
        for zone in &board.zones {
            assert!(zone.ring.len() >= 2);
            assert_eq!(zone.ring.first(), zone.ring.last());
            for hole in &zone.holes {
                assert!(hole.len() >= 2);
                assert_eq!(hole.first(), hole.last());
            }
        }
    }
}

#[test]
fn neighbouring_wedges_of_a_board_share_boundaries() {
    let board = clockboard(origin(), Params::default()).unwrap();
    let nva = 10usize;
    for ring in 0..4usize {
        for seg in 0..12usize {
            let this = &board.zones[1 + ring * 12 + seg];
            let next = &board.zones[1 + ring * 12 + (seg + 1) % 12];
            assert_eq!(this.ring[nva], next.ring[0]);
            assert_eq!(this.ring[nva + 1], next.ring[2 * nva + 1]);
        }
    }
}

#[test]
fn wedges_lie_between_consecutive_distances() {
    let board = clockboard(origin(), Params::default()).unwrap();
    let distances = [1.0f64, 3.0, 6.0, 10.0, 15.0];
    for ring in 1..5usize {
        for seg in 0..12usize {
            let zone = &board.zones[1 + (ring - 1) * 12 + seg];
            assert!(zone.holes.is_empty());
            assert_eq!(zone.ring.len(), 23);
            for (i, v) in zone.ring.iter().enumerate() {
                let outer = i <= 10 || i == 22;
                let want = if outer { distances[ring] } else { distances[ring - 1] };
                assert_eq!(f64::from_bits(v.radius.to_bits()), want);
                assert_eq!(v.turn, 120);
                assert_eq!(v.sweep, Sweep::Clock { segments: 12 });
                assert!(v.step < v.turn);
                let along = (v.step + 120 - (seg as u128) * 10) % 120;
                assert!(along <= 10);
            }
        }
    }
}

#[test]
fn projected_changes_the_model_and_nothing_else() {
    let mut flat = params(12, &[1.0, 3.0, 6.0], 10);
    flat.projected = true;
    let round = params(12, &[1.0, 3.0, 6.0], 10);
    let a = clockboard(origin(), flat).unwrap();
    let b = clockboard(origin(), round).unwrap();
    assert_eq!(a.model, CoordinateModel::Planar);
    assert_eq!(b.model, CoordinateModel::Geodesic);
    assert_eq!(a.precision, b.precision);
    assert_eq!(a.zones.len(), b.zones.len());
    for (za, zb) in a.zones.iter().zip(b.zones.iter()) {
        assert_eq!(za.label, zb.label);
        assert_eq!(za.ring, zb.ring);
        assert_eq!(za.holes, zb.holes);
    }
}

#[test]
fn board_carries_center_precision_and_model() {
    let center = Point::new(scalar(-1.5), scalar(53.8));
    let mut p = params(12, &[1.0, 3.0], 10);
    p.precision = 3;
    let board = clockboard(center, p).unwrap();
    assert_eq!(board.center, center);
    assert_eq!(f64::from_bits(board.center.x.to_bits()), -1.5);
    assert_eq!(f64::from_bits(board.center.y.to_bits()), 53.8);
    assert_eq!(board.precision, 3);
    assert_eq!(board.model, CoordinateModel::Geodesic);
}

#[test]
fn zone_properties_carry_the_label() {
    let board = clockboard(origin(), Params::default()).unwrap();
    for zone in &board.zones {
        let object = zone.properties();
        assert_eq!(object.len(), 1);
        assert_eq!(object.get("label"), Some(&serde_json::Value::String(zone.label.clone())));
    }
    assert_eq!(board.zones[48].properties().get("label").and_then(|v| v.as_str()), Some("E12"));
}

fn rejected(p: Params) -> ClockboardError {
    let checked = p.validate();
    let made = clockboard(origin(), p);
    let e = made.expect_err("the configuration breaks a rule");
    assert_eq!(checked, Err(e));
    e
}

#[test]
fn no_segments_is_turned_down() {
    assert_eq!(rejected(params(0, &[1.0, 3.0], 10)), ClockboardError::NoSegments);
}

#[test]
fn no_arc_vertices_is_turned_down() {
    assert_eq!(rejected(params(12, &[1.0, 3.0], 0)), ClockboardError::NoArcVertices);
}

#[test]
fn no_distances_is_turned_down() {
    assert_eq!(rejected(params(12, &[], 10)), ClockboardError::NoDistances);
}

#[test]
fn distances_that_are_not_positive_numbers_are_turned_down() {
    for bad in [0.0f64, -1.0, f64::NAN, f64::INFINITY, f64::NEG_INFINITY] {
        assert_eq!(rejected(params(12, &[1.0, bad], 10)), ClockboardError::InvalidDistance);
        assert_eq!(rejected(params(12, &[bad, 3.0], 10)), ClockboardError::InvalidDistance);
    }
}

#[test]
fn distances_that_do_not_grow_are_turned_down() {
    assert_eq!(rejected(params(12, &[3.0, 1.0], 10)), ClockboardError::DistancesNotIncreasing);
    assert_eq!(rejected(params(12, &[1.0, 1.0], 10)), ClockboardError::DistancesNotIncreasing);
    assert_eq!(
        rejected(params(12, &[1.0, 3.0, 6.0, 5.999], 10)),
        ClockboardError::DistancesNotIncreasing
    );
}

#[test]
fn more_rings_than_letters_is_turned_down() {
    let fits: Vec<f64> = (1..=26).map(|k| k as f64).collect();
    let board = clockboard(origin(), params(1, &fits, 10)).unwrap();
    assert_eq!(board.zones[25].label, "Z");
    let too_many: Vec<f64> = (1..=27).map(|k| k as f64).collect();
    assert_eq!(rejected(params(1, &too_many, 10)), ClockboardError::TooManyRings);
}

#[test]
fn too_few_vertices_is_turned_down() {
    assert_eq!(rejected(params(1, &[1.0, 3.0], 1)), ClockboardError::TooFewVertices);
    assert_eq!(rejected(params(2, &[1.0, 3.0], 1)), ClockboardError::TooFewVertices);
    assert_eq!(rejected(params(1, &[1.0, 3.0], 2)), ClockboardError::TooFewVertices);
    assert!(clockboard(origin(), params(3, &[1.0, 3.0], 1)).is_ok());
    assert!(clockboard(origin(), params(1, &[1.0, 3.0], 3)).is_ok());
}

#[test]
fn too_many_vertices_is_turned_down() {
    assert_eq!(
        rejected(params(usize::MAX, &[1.0, 3.0], 2)),
        ClockboardError::TooManyVertices
    );
}

#[test]
fn every_precision_is_accepted() {
    for precision in [0usize, 1, 6, 19, 20, 21, 100, 1000, usize::MAX] {
        let mut p = params(12, &[1.0, 3.0], 10);
        p.precision = precision;
        assert_eq!(p.validate(), Ok(()));
        let board = clockboard(origin(), p).unwrap();
        assert_eq!(board.precision, precision);
        assert_eq!(board.zones.len(), 13);
    }
}

#[test]
fn precision_changes_nothing_but_itself() {
    let mut low = params(12, &[1.0, 3.0, 6.0], 10);
    low.precision = 2;
    let mut high = params(12, &[1.0, 3.0, 6.0], 10);
    high.precision = 40;
    let a = clockboard(origin(), low).unwrap();
    let b = clockboard(origin(), high).unwrap();
    assert_eq!(a.zones.len(), b.zones.len());
    for (za, zb) in a.zones.iter().zip(b.zones.iter()) {
        assert_eq!(za.label, zb.label);
        assert_eq!(za.ring, zb.ring);
        assert_eq!(za.holes, zb.holes);
    }
}

#[test]
fn the_first_broken_rule_is_named() {
    assert_eq!(rejected(params(0, &[], 0)), ClockboardError::NoSegments);
    assert_eq!(rejected(params(12, &[], 0)), ClockboardError::NoArcVertices);
    assert_eq!(rejected(params(1, &[3.0, 1.0], 1)), ClockboardError::DistancesNotIncreasing);
    assert_eq!(rejected(params(1, &[-3.0, 1.0], 1)), ClockboardError::InvalidDistance);
}

#[test]
fn default_configuration_is_valid() {
    assert_eq!(Params::default().validate(), Ok(()));
    assert_eq!(Params::default().coordinate_model(), CoordinateModel::Geodesic);
}

#[test]
fn every_reason_has_its_own_words() {
    let all = [
        ClockboardError::NoSegments,
        ClockboardError::NoArcVertices,
        ClockboardError::NoDistances,
        ClockboardError::InvalidDistance,
        ClockboardError::DistancesNotIncreasing,
        ClockboardError::TooManyRings,
        ClockboardError::TooFewVertices,
        ClockboardError::TooManyVertices,
    ];
    let mut words: Vec<&str> = all.iter().map(|e| e.describe()).collect();
    assert_eq!(words[0], "the number of segments is zero");
    assert_eq!(words[5], "there are more rings than letters to name them");
    words.sort();
    words.dedup();
    assert_eq!(words.len(), all.len());
}
