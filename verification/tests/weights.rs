use ordered_float::OrderedFloat;
use uri_routes::weight::{clamp_weight, weights_equal, MAX_WEIGHT, MIN_WEIGHT, NAN_WEIGHT, ROOT_WEIGHT};
use uri_routes::{ApiRouteBuilder, ApiRoutePath, RouteBuilder};

fn samples() -> Vec<f32> {
    vec![
        0.0,
        -0.0,
        f32::MIN_POSITIVE,
        0.05,
        0.099999994,
        0.1,
        0.10000001,
        0.5,
        1.0,
        1.5,
        2.0,
        1.0e30,
        f32::MAX,
        f32::INFINITY,
        f32::NEG_INFINITY,
        -0.1,
        -1.0,
        f32::MIN,
        f32::NAN,
        -f32::NAN,
        f32::from_bits(0x7F80_0001),
        f32::from_bits(0xFFFF_FFFF),
    ]
}

#[test]
fn constants_are_the_patterns_of_their_numbers() {
    assert_eq!(ROOT_WEIGHT, 0.0f32.to_bits());
    assert_eq!(MIN_WEIGHT, 0.1f32.to_bits());
    assert_eq!(MAX_WEIGHT, f32::MAX.to_bits());
    assert!(f32::from_bits(NAN_WEIGHT).is_nan());
    assert!(ROOT_WEIGHT < MIN_WEIGHT && MIN_WEIGHT < MAX_WEIGHT && MAX_WEIGHT < NAN_WEIGHT);
}

#[test]
fn clamping_patterns_is_clamping_numbers() {
    for w in samples() {
        let clamped = OrderedFloat(f32::from_bits(clamp_weight(w.to_bits())));
        assert_eq!(clamped, OrderedFloat(w.clamp(0.1, f32::MAX)), "{w}");
    }
}

#[test]
fn clamped_patterns_are_ordered_as_their_numbers() {
    for a in samples() {
        for b in samples() {
            let (ka, kb) = (clamp_weight(a.to_bits()), clamp_weight(b.to_bits()));
            let (fa, fb) = (
                OrderedFloat(a.clamp(0.1, f32::MAX)),
                OrderedFloat(b.clamp(0.1, f32::MAX)),
            );
            assert_eq!(ka.cmp(&kb), fa.cmp(&fb), "{a} {b}");
            assert_eq!(ROOT_WEIGHT < ka, OrderedFloat(0.0) < fa);
        }
    }
}

#[test]
fn patterns_are_equal_as_their_numbers() {
    for a in samples() {
        for b in samples() {
            assert_eq!(
                weights_equal(a.to_bits(), b.to_bits()),
                OrderedFloat(a) == OrderedFloat(b),
                "{a} {b}"
            );
            assert_eq!(
                ApiRoutePath::new("p", a.to_bits()) == ApiRoutePath::new("p", b.to_bits()),
                OrderedFloat(a) == OrderedFloat(b)
            );
        }
    }
}

fn sorted_after_each_insert(inserts: &[(&str, Option<f32>)]) -> String {
    let mut entries: Vec<(String, OrderedFloat<f32>)> = vec![(String::from("/"), OrderedFloat(0.0))];
    for (path, weight) in inserts {
        let weight = weight.unwrap_or(f32::MAX).clamp(0.1, f32::MAX);
        entries.push((path.to_string(), OrderedFloat(weight)));
        entries.sort_by(|a, b| a.1.cmp(&b.1));
    }
    let texts: Vec<String> =
        entries.into_iter().map(|e| e.0).filter(|p| !p.is_empty()).collect();
    texts.join("/").replace("//", "/")
}

fn built(inserts: &[(&str, Option<f32>)]) -> String {
    let mut builder = ApiRouteBuilder::new("example.com");
    for (path, weight) in inserts {
        builder = match weight {
            Some(w) => builder.with_path_weight(path, w.to_bits()),
            None => builder.with_path(path),
        };
    }
    builder.parse_path()
}

#[test]
fn insertion_is_a_stable_sort_by_weight() {
    let cases: Vec<Vec<(&str, Option<f32>)>> = vec![
        vec![],
        vec![("a", None)],
        vec![("b", Some(2.0)), ("a", Some(1.0))],
        vec![("y", Some(0.5)), ("x", None)],
        vec![("x", None), ("y", Some(0.5)), ("z", None), ("w", Some(0.5))],
        vec![("n", Some(f32::NAN)), ("x", None), ("m", Some(-f32::NAN)), ("i", Some(f32::INFINITY))],
        vec![("a", Some(-3.0)), ("b", Some(0.0)), ("c", Some(0.1)), ("d", Some(0.05))],
        vec![("", Some(1.0)), ("a", Some(3.0)), ("", None), ("b", Some(2.0)), ("c", Some(3.0))],
        vec![("e", Some(5.0)), ("d", Some(4.0)), ("c", Some(3.0)), ("b", Some(2.0)), ("a", Some(1.0))],
        vec![("a/", Some(1.0)), ("/b", Some(2.0)), ("//c", Some(3.0))],
    ];
    for inserts in cases {
        assert_eq!(built(&inserts), sorted_after_each_insert(&inserts), "{inserts:?}");
    }
}
