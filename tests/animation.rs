use assimp::animation::{Animation, MeshAnim, MeshKey, NodeAnim, Pose};
use assimp::channel::{AnimBehaviour, AnimError, Fraction, Key};
use assimp::time::Time;

fn tk(ticks: i64) -> Time {
    Time::from_ticks(ticks)
}

type V3 = [f64; 3];
type Q4 = [f64; 4];

fn lerp3(a: V3, b: V3, x: Fraction) -> V3 {
    let w = x.num as f64 / x.den as f64;
    [a[0] + (b[0] - a[0]) * w, a[1] + (b[1] - a[1]) * w, a[2] + (b[2] - a[2]) * w]
}

fn nlerp4(a: Q4, b: Q4, x: Fraction) -> Q4 {
    let w = x.num as f64 / x.den as f64;
    let q = [
        a[0] + (b[0] - a[0]) * w,
        a[1] + (b[1] - a[1]) * w,
        a[2] + (b[2] - a[2]) * w,
        a[3] + (b[3] - a[3]) * w,
    ];
    let n = (q[0] * q[0] + q[1] * q[1] + q[2] * q[2] + q[3] * q[3]).sqrt();
    [q[0] / n, q[1] / n, q[2] / n, q[3] / n]
}

fn node(name: &str, x: f64) -> NodeAnim<V3, Q4> {
    NodeAnim::new(
        name.to_string(),
        vec![Key { time: tk(0), value: [x, 0.0, 0.0] }, Key { time: tk(10), value: [x, 10.0, 0.0] }],
        vec![Key { time: tk(0), value: [1.0, 0.0, 0.0, 0.0] }],
        vec![],
        AnimBehaviour::Default,
        AnimBehaviour::Constant,
    )
    .unwrap()
}

fn mesh(name: &str, keys: Vec<MeshKey>) -> MeshAnim {
    MeshAnim::new(name.to_string(), keys).unwrap()
}

fn animation_at(rate: Time) -> Animation<V3, Q4> {
    Animation::new(
        "walk".to_string(),
        tk(10),
        rate,
        vec![node("Hips", 1.0), node("Spine", 2.0), node("Neck", 3.0)],
        vec![
            mesh("Face", vec![Key { time: tk(0), value: 4 }]),
            mesh("Body", vec![Key { time: tk(0), value: 7 }]),
            mesh("Face", vec![Key { time: tk(0), value: 9 }]),
        ],
    )
    .unwrap()
}

fn animation() -> Animation<V3, Q4> {
    animation_at(tk(25))
}

#[test]
fn find_node_anim_by_exact_name() {
    let anim = animation();
    let spine = anim.find_node_anim(&"Spine".to_string()).unwrap();
    assert_eq!(spine.name(), "Spine");
    assert_eq!(spine.get_position_keys()[0].value, [2.0, 0.0, 0.0]);
    assert!(anim.find_node_anim(&"NoSuchBone".to_string()).is_none());
    assert!(anim.find_node_anim(&"spine".to_string()).is_none());
    assert_eq!(anim.get_channels().len(), 3);
}

#[test]
fn find_mesh_anim_takes_first_match() {
    let anim = animation();
    let face = anim.find_mesh_anim(&"Face".to_string()).unwrap();
    assert_eq!(face.name(), "Face");
    assert_eq!(face.get_keys()[0].value, 4);
    assert!(anim.find_mesh_anim(&"Hand".to_string()).is_none());
    assert_eq!(anim.get_mesh_channels().len(), 3);
}

#[test]
fn active_variant_holds_keys() {
    let m = mesh(
        "Face",
        vec![Key { time: tk(0), value: 0 }, Key { time: tk(5), value: 2 }, Key { time: tk(12), value: 1 }],
    );
    assert_eq!(m.active_variant(tk(7)), 2);
    assert_eq!(m.active_variant(tk(-1)), 0);
    assert_eq!(m.active_variant(tk(100)), 1);
    assert_eq!(m.active_variant(tk(5)), 2);
    assert_eq!(m.active_variant(tk(12)), 1);
}

#[test]
fn mesh_anim_needs_keys() {
    assert!(matches!(MeshAnim::new("Face".to_string(), vec![]), Err(AnimError::EmptyChannel)));
}

#[test]
fn mesh_anim_needs_a_name() {
    let keys = vec![Key { time: tk(0), value: 1 }];
    assert!(matches!(MeshAnim::new(String::new(), keys), Err(AnimError::EmptyName)));
    assert!(matches!(MeshAnim::new(String::new(), vec![]), Err(AnimError::EmptyName)));
}

#[test]
fn mesh_anim_needs_ordered_keys() {
    let keys = vec![Key { time: tk(4), value: 1 }, Key { time: tk(2), value: 0 }];
    assert!(matches!(MeshAnim::new("Face".to_string(), keys), Err(AnimError::UnsortedKeys)));
    let tied = vec![Key { time: tk(2), value: 1 }, Key { time: tk(2), value: 0 }];
    assert!(MeshAnim::new("Face".to_string(), tied).is_ok());
}

#[test]
fn evaluate_transform_samples_each_series() {
    let n = node("Spine", 2.0);
    let rest = Pose { position: [0.0; 3], rotation: [0.0, 0.0, 0.0, 1.0], scaling: [1.0; 3] };
    let p = n.evaluate_transform(tk(5), rest, &lerp3, &nlerp4);
    assert_eq!(p.position, [2.0, 5.0, 0.0]);
    assert_eq!(p.rotation, [1.0, 0.0, 0.0, 0.0]);
    assert_eq!(p.scaling, [1.0; 3]);
    // before the keys, Default takes the rest position; the single rotation key holds
    let before = n.evaluate_transform(tk(-1), rest, &lerp3, &nlerp4);
    assert_eq!(before.position, [0.0; 3]);
    assert_eq!(before.rotation, [1.0, 0.0, 0.0, 0.0]);
    // after the keys, Constant holds the last position
    let after = n.evaluate_transform(tk(50), rest, &lerp3, &nlerp4);
    assert_eq!(after.position, [2.0, 10.0, 0.0]);
    assert_eq!(n.get_rotation_keys().len(), 1);
    assert!(n.get_scaling_keys().is_empty());
}

#[test]
fn tick_rate_falls_back_when_unspecified() {
    let anim = animation();
    assert_eq!(anim.tick_rate_or(tk(30)), tk(25));
    assert_eq!(anim.ticks_per_sec(), tk(25));
    assert_eq!(anim.duration(), tk(10));
    assert_eq!(anim.name(), "walk");
    assert_eq!(animation_at(tk(0)).tick_rate_or(tk(30)), tk(30));
    let rate = Time::from_bits(29.97f64.to_bits()).unwrap();
    assert_eq!(animation_at(rate).tick_rate_or(tk(30)), rate);
    assert!(rate != tk(30) && rate != tk(29));
}

#[test]
fn node_channel_names_are_unique() {
    let dup: Result<Animation<V3, Q4>, AnimError> = Animation::new(
        "walk".to_string(),
        tk(10),
        tk(25),
        vec![node("Hips", 1.0), node("Spine", 2.0), node("Hips", 3.0)],
        vec![],
    );
    assert!(matches!(dup, Err(AnimError::DuplicateName)));
    let anim = animation();
    let names: Vec<&String> = anim.get_channels().iter().map(|c| c.name()).collect();
    assert_eq!(names, ["Hips", "Spine", "Neck"]);
}

#[test]
fn node_keys_must_be_in_time_order() {
    let bad: Result<NodeAnim<V3, Q4>, AnimError> = NodeAnim::new(
        "Hips".to_string(),
        vec![],
        vec![Key { time: tk(5), value: [1.0, 0.0, 0.0, 0.0] }, Key { time: tk(1), value: [1.0, 0.0, 0.0, 0.0] }],
        vec![],
        AnimBehaviour::Default,
        AnimBehaviour::Default,
    );
    assert!(matches!(bad, Err(AnimError::UnsortedKeys)));
    let n = node("Hips", 1.0);
    assert_eq!(n.pre_state(), AnimBehaviour::Default);
    assert_eq!(n.post_state(), AnimBehaviour::Constant);
}
