//! Node and mesh animation channels, and the animation that owns them.

use vstd::prelude::*;

use crate::channel::{
    AnimBehaviour, AnimError, Fraction, Key, Sample, evaluate, hold, hold_index, is_sorted,
    key_times, keys_sorted, sample_spec, sample_wf, sample_yields,
};
use crate::time::Time;

verus! {

/// A key that selects, from `time` on, one of the anim meshes of the mesh
/// that its channel animates (an index into that mesh's anim meshes).
pub type MeshKey = Key<libc::c_uint>;

/// A node's transform parts at one time, applied as scaling, then rotation,
/// then translation.
#[derive(Clone, Copy, Debug)]
pub struct Pose<V, Q> {
    pub position: V,
    pub rotation: Q,
    pub scaling: V,
}

/// The animation of a single node: three separate key series for position,
/// rotation and scaling, which replace the node's own transform while the
/// animation plays. All keys are absolute, not relative to the rest pose,
/// and each series is kept in time order.
pub struct NodeAnim<V, Q> {
    name: String,
    position_keys: Vec<Key<V>>,
    rotation_keys: Vec<Key<Q>>,
    scaling_keys: Vec<Key<V>>,
    pre_state: AnimBehaviour,
    post_state: AnimBehaviour,
}

impl<V, Q> NodeAnim<V, Q> {
    #[verifier::type_invariant]
    spec fn keys_in_order(self) -> bool {
        &&& is_sorted(key_times(self.position_keys@))
        &&& is_sorted(key_times(self.rotation_keys@))
        &&& is_sorted(key_times(self.scaling_keys@))
    }

    pub closed spec fn name_view(&self) -> Seq<char> {
        self.name@
    }

    pub closed spec fn position_view(&self) -> Seq<Key<V>> {
        self.position_keys@
    }

    pub closed spec fn rotation_view(&self) -> Seq<Key<Q>> {
        self.rotation_keys@
    }

    pub closed spec fn scaling_view(&self) -> Seq<Key<V>> {
        self.scaling_keys@
    }

    pub closed spec fn pre_view(&self) -> AnimBehaviour {
        self.pre_state
    }

    pub closed spec fn post_view(&self) -> AnimBehaviour {
        self.post_state
    }

    /// A channel for the node `name`, with `pre_state` before the first key
    /// of each series and `post_state` after its last; `UnsortedKeys` where
    /// the key times of a series decrease somewhere.
    pub fn new(
        name: String,
        position_keys: Vec<Key<V>>,
        rotation_keys: Vec<Key<Q>>,
        scaling_keys: Vec<Key<V>>,
        pre_state: AnimBehaviour,
        post_state: AnimBehaviour,
    ) -> (r: Result<Self, AnimError>)
        ensures
            r is Ok <==> is_sorted(key_times(position_keys@)) && is_sorted(
                key_times(rotation_keys@),
            ) && is_sorted(key_times(scaling_keys@)),
            r matches Err(e) ==> e == AnimError::UnsortedKeys,
            r matches Ok(c) ==> c.name_view() == name@ && c.position_view() == position_keys@
                && c.rotation_view() == rotation_keys@ && c.scaling_view() == scaling_keys@
                && c.pre_view() == pre_state && c.post_view() == post_state,
    {
        if keys_sorted(position_keys.as_slice()) && keys_sorted(rotation_keys.as_slice())
            && keys_sorted(scaling_keys.as_slice()) {
            Ok(NodeAnim { name, position_keys, rotation_keys, scaling_keys, pre_state, post_state })
        } else {
            Err(AnimError::UnsortedKeys)
        }
    }

    /// The name of the node that this channel animates.
    pub fn name(&self) -> (r: &String)
        ensures
            r@ == self.name_view(),
    {
        &self.name
    }

    /// How the three series behave before their first key.
    pub fn pre_state(&self) -> (r: AnimBehaviour)
        ensures
            r == self.pre_view(),
    {
        self.pre_state
    }

    /// How the three series behave after their last key.
    pub fn post_state(&self) -> (r: AnimBehaviour)
        ensures
            r == self.post_view(),
    {
        self.post_state
    }

    /// The rotation keys, in time order.
    pub fn get_rotation_keys(&self) -> (r: &[Key<Q>])
        ensures
            r@ == self.rotation_view(),
            is_sorted(key_times(r@)),
    {
        proof {
            use_type_invariant(self);
        }
        self.rotation_keys.as_slice()
    }

    /// The position keys, in time order.
    pub fn get_position_keys(&self) -> (r: &[Key<V>])
        ensures
            r@ == self.position_view(),
            is_sorted(key_times(r@)),
    {
        proof {
            use_type_invariant(self);
        }
        self.position_keys.as_slice()
    }

    /// The scaling keys, in time order.
    pub fn get_scaling_keys(&self) -> (r: &[Key<V>])
        ensures
            r@ == self.scaling_view(),
            is_sorted(key_times(r@)),
    {
        proof {
            use_type_invariant(self);
        }
        self.scaling_keys.as_slice()
    }

    /// Samples position, rotation and scaling at time `t`, each from its own
    /// series with this channel's `pre_state` and `post_state`. `rest` gives
    /// the node's rest pose; `lerp` blends positions and scalings, `slerp`
    /// rotations.
    pub fn evaluate_transform<FV: Fn(V, V, Fraction) -> V, FQ: Fn(Q, Q, Fraction) -> Q>(
        &self,
        t: Time,
        rest: Pose<V, Q>,
        lerp: &FV,
        slerp: &FQ,
    ) -> (r: Pose<V, Q>) where V: Copy, Q: Copy
        requires
            forall|a: V, b: V, x: Fraction| x.den > 0 ==> #[trigger] lerp.requires((a, b, x)),
            forall|a: Q, b: Q, x: Fraction| x.den > 0 ==> #[trigger] slerp.requires((a, b, x)),
        ensures
            sample_yields(
                self.position_view(),
                sample_spec(key_times(self.position_view()), t@, self.pre_view(), self.post_view()),
                rest.position,
                *lerp,
                r.position,
            ),
            sample_yields(
                self.rotation_view(),
                sample_spec(key_times(self.rotation_view()), t@, self.pre_view(), self.post_view()),
                rest.rotation,
                *slerp,
                r.rotation,
            ),
            sample_yields(
                self.scaling_view(),
                sample_spec(key_times(self.scaling_view()), t@, self.pre_view(), self.post_view()),
                rest.scaling,
                *lerp,
                r.scaling,
            ),
    {
        proof {
            use_type_invariant(self);
        }
        let position = evaluate(
            self.position_keys.as_slice(),
            t,
            self.pre_state,
            self.post_state,
            rest.position,
            lerp,
        );
        let rotation = evaluate(
            self.rotation_keys.as_slice(),
            t,
            self.pre_state,
            self.post_state,
            rest.rotation,
            slerp,
        );
        let scaling = evaluate(
            self.scaling_keys.as_slice(),
            t,
            self.pre_state,
            self.post_state,
            rest.scaling,
            lerp,
        );
        Pose { position, rotation, scaling }
    }
}

/// Vertex-based animation of a mesh, or of every mesh of that name: keys
/// that pick which anim mesh is shown from each key time on.
pub struct MeshAnim {
    name: String,
    keys: Vec<MeshKey>,
}

impl MeshAnim {
    #[verifier::type_invariant]
    spec fn well_formed(self) -> bool {
        &&& self.name@.len() > 0
        &&& self.keys@.len() > 0
        &&& is_sorted(key_times(self.keys@))
    }

    pub closed spec fn name_view(&self) -> Seq<char> {
        self.name@
    }

    pub closed spec fn keys_view(&self) -> Seq<MeshKey> {
        self.keys@
    }

    /// A mesh channel for the meshes named `name`: `EmptyName` where `name`
    /// is empty, else `EmptyChannel` where `keys` is empty, else
    /// `UnsortedKeys` where the key times decrease somewhere.
    pub fn new(name: String, keys: Vec<MeshKey>) -> (r: Result<MeshAnim, AnimError>)
        ensures
            name@.len() == 0 ==> r == Err::<MeshAnim, AnimError>(AnimError::EmptyName),
            name@.len() > 0 && keys@.len() == 0 ==> r == Err::<MeshAnim, AnimError>(
                AnimError::EmptyChannel,
            ),
            name@.len() > 0 && keys@.len() > 0 && !is_sorted(key_times(keys@)) ==> r == Err::<
                MeshAnim,
                AnimError,
            >(AnimError::UnsortedKeys),
            r is Ok <==> name@.len() > 0 && keys@.len() > 0 && is_sorted(key_times(keys@)),
            r matches Ok(m) ==> m.name_view() == name@ && m.keys_view() == keys@,
    {
        if name.as_str().unicode_len() == 0 {
            Err(AnimError::EmptyName)
        } else if keys.len() == 0 {
            Err(AnimError::EmptyChannel)
        } else if !keys_sorted(keys.as_slice()) {
            Err(AnimError::UnsortedKeys)
        } else {
            Ok(MeshAnim { name, keys })
        }
    }

    /// The name of the animated mesh (several meshes may share it); never
    /// empty.
    pub fn name(&self) -> (r: &String)
        ensures
            r@ == self.name_view(),
            r@.len() > 0,
    {
        proof {
            use_type_invariant(self);
        }
        &self.name
    }

    /// The keys, in time order; there is at least one.
    pub fn get_keys(&self) -> (r: &[MeshKey])
        ensures
            r@ == self.keys_view(),
            r@.len() > 0,
            is_sorted(key_times(r@)),
    {
        proof {
            use_type_invariant(self);
        }
        self.keys.as_slice()
    }

    /// The anim mesh shown at time `t`: that of the last key at or before
    /// `t`, or of the first key where `t` precedes them all.
    pub fn active_variant(&self, t: Time) -> (r: libc::c_uint)
        ensures
            r == self.keys_view()[hold_index(key_times(self.keys_view()), t@)].value,
    {
        proof {
            use_type_invariant(self);
        }
        let i = hold(self.keys.as_slice(), t);
        self.keys[i].value
    }
}

/// An animation: keyframe data for a number of nodes and meshes. No two
/// node channels animate the same node.
pub struct Animation<V, Q> {
    name: String,
    duration: Time,
    ticks_per_sec: Time,
    channels: Vec<NodeAnim<V, Q>>,
    mesh_channels: Vec<MeshAnim>,
}

/// Channel `i` is the first of `names` equal to `name`.
pub open spec fn is_first_named(names: Seq<Seq<char>>, i: int, name: Seq<char>) -> bool {
    0 <= i < names.len() && names[i] == name && forall|j: int| 0 <= j < i ==> names[j] != name
}

/// No two of `names` are equal.
pub open spec fn names_distinct(names: Seq<Seq<char>>) -> bool {
    forall|i: int, j: int| 0 <= i < j < names.len() ==> names[i] != names[j]
}

/// The names of node channels, in order.
pub open spec fn names_of<V, Q>(channels: Seq<NodeAnim<V, Q>>) -> Seq<Seq<char>> {
    channels.map_values(|c: NodeAnim<V, Q>| c.name_view())
}

impl<V, Q> Animation<V, Q> {
    #[verifier::type_invariant]
    spec fn node_names_unique(self) -> bool {
        names_distinct(names_of(self.channels@))
    }

    pub closed spec fn name_view(&self) -> Seq<char> {
        self.name@
    }

    pub closed spec fn duration_view(&self) -> Time {
        self.duration
    }

    pub closed spec fn rate_view(&self) -> Time {
        self.ticks_per_sec
    }

    pub closed spec fn channels_view(&self) -> Seq<NodeAnim<V, Q>> {
        self.channels@
    }

    pub closed spec fn mesh_channels_view(&self) -> Seq<MeshAnim> {
        self.mesh_channels@
    }

    /// The names of the node channels, in order.
    pub open spec fn node_names(&self) -> Seq<Seq<char>> {
        names_of(self.channels_view())
    }

    /// The names of the mesh channels, in order.
    pub open spec fn mesh_names(&self) -> Seq<Seq<char>> {
        self.mesh_channels_view().map_values(|m: MeshAnim| m.name_view())
    }

    /// An animation named `name`, lasting `duration`, at `ticks_per_sec`
    /// ticks per second (0 where the source did not say); `DuplicateName`
    /// where two node channels share a name.
    pub fn new(
        name: String,
        duration: Time,
        ticks_per_sec: Time,
        channels: Vec<NodeAnim<V, Q>>,
        mesh_channels: Vec<MeshAnim>,
    ) -> (r: Result<Self, AnimError>)
        ensures
            r is Ok <==> names_distinct(names_of(channels@)),
            r matches Err(e) ==> e == AnimError::DuplicateName,
            r matches Ok(a) ==> a.name_view() == name@ && a.duration_view() == duration
                && a.rate_view() == ticks_per_sec && a.channels_view() == channels@
                && a.mesh_channels_view() == mesh_channels@,
    {
        let ghost names = names_of(channels@);
        let n = channels.len();
        let mut i: usize = 0;
        while i < n
            invariant
                i <= n,
                n == channels@.len(),
                names == names_of(channels@),
                forall|a: int, b: int| 0 <= a < b < i ==> names[a] != names[b],
            decreases n - i,
        {
            let mut j: usize = 0;
            while j < i
                invariant
                    j <= i < n,
                    n == channels@.len(),
                    names == names_of(channels@),
                    forall|a: int| 0 <= a < j ==> names[a] != names[i as int],
                decreases i - j,
            {
                if channels[j].name == channels[i].name {
                    assert(names[j as int] == names[i as int]);
                    return Err(AnimError::DuplicateName);
                }
                j += 1;
            }
            i += 1;
        }
        Ok(Animation { name, duration, ticks_per_sec, channels, mesh_channels })
    }

    /// The name of the animation; empty where the source format knows a
    /// single animation only.
    pub fn name(&self) -> (r: &String)
        ensures
            r@ == self.name_view(),
    {
        &self.name
    }

    /// The duration.
    pub fn duration(&self) -> (r: Time)
        ensures
            r == self.duration_view(),
    {
        self.duration
    }

    /// The ticks in one second; 0 where the source did not say, in which
    /// case the caller chooses.
    pub fn ticks_per_sec(&self) -> (r: Time)
        ensures
            r == self.rate_view(),
    {
        self.ticks_per_sec
    }

    /// The tick rate: `ticks_per_sec`, or `fallback` where the animation
    /// gives none.
    pub fn tick_rate_or(&self, fallback: Time) -> (r: Time)
        ensures
            r == if self.rate_view()@ == 0 {
                fallback
            } else {
                self.rate_view()
            },
    {
        if self.ticks_per_sec.units() == 0 {
            fallback
        } else {
            self.ticks_per_sec
        }
    }

    /// The node channels; each affects a single node, and no two share a
    /// name.
    pub fn get_channels(&self) -> (r: &[NodeAnim<V, Q>])
        ensures
            r@ == self.channels_view(),
            forall|i: int, j: int|
                0 <= i < j < r@.len() ==> r@[i].name_view() != r@[j].name_view(),
    {
        proof {
            use_type_invariant(self);
            assert forall|i: int, j: int| 0 <= i < j < self.channels@.len() implies self.channels@[i].name_view()
                != self.channels@[j].name_view() by {
                assert(names_of(self.channels@)[i] == self.channels@[i].name_view());
                assert(names_of(self.channels@)[j] == self.channels@[j].name_view());
            }
        }
        self.channels.as_slice()
    }

    /// The mesh channels; each affects the meshes of its name.
    pub fn get_mesh_channels(&self) -> (r: &[MeshAnim])
        ensures
            r@ == self.mesh_channels_view(),
    {
        self.mesh_channels.as_slice()
    }

    /// The first node channel named `name`, or `None` where none is.
    pub fn find_node_anim(&self, name: &String) -> (r: Option<&NodeAnim<V, Q>>)
        ensures
            r is None <==> forall|i: int|
                0 <= i < self.node_names().len() ==> self.node_names()[i] != name@,
            r matches Some(c) ==> exists|i: int|
                is_first_named(self.node_names(), i, name@) && *c == self.channels_view()[i],
    {
        let mut i: usize = 0;
        while i < self.channels.len()
            invariant
                i <= self.channels@.len(),
                forall|j: int| 0 <= j < i ==> self.node_names()[j] != name@,
            decreases self.channels@.len() - i,
        {
            if self.channels[i].name == *name {
                assert(is_first_named(self.node_names(), i as int, name@));
                return Some(&self.channels[i]);
            }
            i += 1;
        }
        None
    }

    /// The first mesh channel named `name`, or `None` where none is.
    pub fn find_mesh_anim(&self, name: &String) -> (r: Option<&MeshAnim>)
        ensures
            r is None <==> forall|i: int|
                0 <= i < self.mesh_names().len() ==> self.mesh_names()[i] != name@,
            r matches Some(m) ==> exists|i: int|
                is_first_named(self.mesh_names(), i, name@) && *m == self.mesh_channels_view()[i],
    {
        let mut i: usize = 0;
        while i < self.mesh_channels.len()
            invariant
                i <= self.mesh_channels@.len(),
                forall|j: int| 0 <= j < i ==> self.mesh_names()[j] != name@,
            decreases self.mesh_channels@.len() - i,
        {
            if self.mesh_channels[i].name == *name {
                assert(is_first_named(self.mesh_names(), i as int, name@));
                return Some(&self.mesh_channels[i]);
            }
            i += 1;
        }
        None
    }
}

} // verus!
