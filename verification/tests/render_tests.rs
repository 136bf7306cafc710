use raytrace::{decide, image_row, traces, PathAction, PathEvent};

#[test]
fn no_bounces_left_gives_black() {
    assert!(!traces(0));
    assert!(!traces(-3));
    assert!(traces(1));
    assert_eq!(decide(0, PathEvent::Diffuse), PathAction::Black);
    assert_eq!(decide(-1, PathEvent::Miss), PathAction::Black);
}

#[test]
fn each_event_gives_its_action() {
    assert_eq!(decide(50, PathEvent::Miss), PathAction::Background);
    assert_eq!(decide(50, PathEvent::Absorbed), PathAction::Emitted);
    assert_eq!(decide(50, PathEvent::Specular), PathAction::FollowSpecular(49));
    assert_eq!(decide(50, PathEvent::Diffuse), PathAction::FollowDiffuse(49));
    assert_eq!(decide(1, PathEvent::Diffuse), PathAction::FollowDiffuse(0));
}

#[test]
fn tracing_makes_at_most_depth_queries() {
    for depth in [-2, 0, 1, 3, 50] {
        let mut d = depth;
        let mut queries = 0;
        while traces(d) {
            queries += 1;
            let ev = if queries % 2 == 0 { PathEvent::Specular } else { PathEvent::Diffuse };
            match decide(d, ev) {
                PathAction::FollowSpecular(n) | PathAction::FollowDiffuse(n) => d = n,
                _ => break,
            }
        }
        assert_eq!(queries, if depth > 0 { depth } else { 0 });
    }
}

#[test]
fn image_rows_are_flipped() {
    assert_eq!(image_row(600, 0), 599);
    assert_eq!(image_row(600, 599), 0);
    assert_eq!(image_row(1, 0), 0);
    for y in 0..600 {
        assert_eq!(image_row(600, image_row(600, y)), y);
    }
}
