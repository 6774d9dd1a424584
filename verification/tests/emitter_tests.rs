use rand::Rng;
use sandk_offroad::emitter::{box_face, random_box_face, BoxFace};

#[test]
fn face_indices_name_the_six_faces() {
    assert_eq!(box_face(0), BoxFace::Right);
    assert_eq!(box_face(1), BoxFace::Left);
    assert_eq!(box_face(2), BoxFace::Top);
    assert_eq!(box_face(3), BoxFace::Bottom);
    assert_eq!(box_face(4), BoxFace::Front);
    assert_eq!(box_face(5), BoxFace::Back);
}

#[test]
fn indices_past_the_last_face_fall_back_to_the_back_face() {
    assert_eq!(box_face(6), BoxFace::Back);
    assert_eq!(box_face(-1), BoxFace::Back);
}

#[test]
fn faces_know_their_axis_and_side() {
    let expected = [
        (BoxFace::Right, 0, true),
        (BoxFace::Left, 0, false),
        (BoxFace::Top, 1, true),
        (BoxFace::Bottom, 1, false),
        (BoxFace::Front, 2, true),
        (BoxFace::Back, 2, false),
    ];
    for (face, axis, positive) in expected {
        assert_eq!(face.axis(), axis);
        assert_eq!(face.is_positive(), positive);
    }
}

#[test]
fn random_faces_vary_between_draws() {
    let mut rng = rand::thread_rng();
    let first = random_box_face(&mut rng);
    let mut seen_other = false;
    for _ in 0..500 {
        if random_box_face(&mut rng) != first {
            seen_other = true;
            break;
        }
    }
    assert!(seen_other);
}

#[test]
fn test_box_emitter() {
    let mut rng = rand::thread_rng();
    let (min_bound, max_bound) = ([-1.0f32; 3], [1.0f32; 3]);

    // Test surface position generation
    let face = random_box_face(&mut rng);
    let mut pos = [0.0f32; 3];
    for axis in 0..3 {
        pos[axis] = rng.gen_range(min_bound[axis]..=max_bound[axis]);
    }
    let axis = face.axis() as usize;
    pos[axis] = if face.is_positive() { max_bound[axis] } else { min_bound[axis] };
    assert!(pos[0].abs() == 1.0 || pos[1].abs() == 1.0 || pos[2].abs() == 1.0);

    // Test volume position generation
    let volume: Vec<f32> = (0..3).map(|a| rng.gen_range(min_bound[a]..=max_bound[a])).collect();
    assert!(volume[0].abs() <= 1.0 && volume[1].abs() <= 1.0 && volume[2].abs() <= 1.0);

    // Test outward direction: along the face's axis, away from the centre
    let mut dir = [0.0f32; 3];
    dir[axis] = if face.is_positive() { 1.0 } else { -1.0 };
    let length = (dir[0] * dir[0] + dir[1] * dir[1] + dir[2] * dir[2]).sqrt();
    assert!((length - 1.0).abs() < 1e-6);
}
