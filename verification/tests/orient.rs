use wagyan::orient::{map_point, Axes, Orientation, Source};

fn pick(source: Source, x: f32, y: f32, z: f32) -> f32 {
    match source {
        Source::X => x,
        Source::Y => y,
        Source::Z => z,
        Source::NegZ => -z,
    }
}

fn apply(orientation: Orientation, x: f32, y: f32, z: f32) -> [f32; 3] {
    let axes = map_point(orientation);
    [pick(axes.first, x, y, z), pick(axes.second, x, y, z), pick(axes.third, x, y, z)]
}

#[test]
fn flat_passes_coordinates_through() {
    assert_eq!(
        map_point(Orientation::Flat),
        Axes { first: Source::X, second: Source::Y, third: Source::Z }
    );
    assert_eq!(apply(Orientation::Flat, 1.0, 2.0, 3.0), [1.0, 2.0, 3.0]);
}

#[test]
fn front_turns_depth_toward_the_viewer() {
    assert_eq!(
        map_point(Orientation::Front),
        Axes { first: Source::X, second: Source::NegZ, third: Source::Y }
    );
    assert_eq!(apply(Orientation::Front, 1.0, 2.0, 3.0), [1.0, -3.0, 2.0]);
}

#[test]
fn every_orientation_uses_each_axis_once() {
    for orientation in [Orientation::Flat, Orientation::Front] {
        let axes = map_point(orientation);
        let all = [axes.first, axes.second, axes.third];
        assert_eq!(all.iter().filter(|s| **s == Source::X).count(), 1);
        assert_eq!(all.iter().filter(|s| **s == Source::Y).count(), 1);
        assert_eq!(
            all.iter().filter(|s| **s == Source::Z || **s == Source::NegZ).count(),
            1
        );
    }
}
