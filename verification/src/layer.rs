//! Layers and the z-ordered layer stack of the composition canvas.
//!
//! A layer's geometric appearance (transform, opacity) is carried in a
//! payload of type `A` chosen by the user of the stack; the stack orders
//! layers by z-index and allocates their identifiers.

use crate::time::Time;
use vstd::std_specs::iter::IteratorSpec;
use vstd::prelude::*;

verus! {

/// Unique identifier for a layer.
#[derive(Debug, Clone, Copy, PartialEq, Eq, Hash, Structural)]
pub struct LayerId(pub u64);

impl LayerId {
    /// The layer with the given number.
    pub fn new(id: u64) -> (l: Self)
        ensures
            l.0 == id,
    {
        LayerId(id)
    }

    /// The identifier that follows this one.
    pub fn next(&self) -> (l: Self)
        requires
            self.0 < u64::MAX,
        ensures
            l.0 == self.0 + 1,
    {
        LayerId(self.0 + 1)
    }
}

/// Layer properties for video composition.
#[derive(Debug)]
pub struct Layer<A> {
    pub id: LayerId,
    pub name: String,
    /// Geometric appearance: transform and opacity.
    pub appearance: A,
    pub visible: bool,
    pub z_index: i32,
    // Media properties
    pub media_path: Option<String>,
    pub start_time: Time,
    pub duration: Option<Time>,
    pub loop_enabled: bool,
    // Playback state
    pub playing: bool,
    pub muted: bool,
}

/// A layer as `Layer::new` makes it: visible, at z-index 0, with no media,
/// starting at time zero, not looping, paused and audible.
pub open spec fn is_new_layer<A>(l: Layer<A>, id: LayerId, name: Seq<char>) -> bool {
    &&& l.id == id
    &&& l.name@ == name
    &&& l.visible
    &&& l.z_index == 0
    &&& l.media_path.is_none()
    &&& l.start_time == Time(0)
    &&& l.duration.is_none()
    &&& !l.loop_enabled
    &&& !l.playing
    &&& !l.muted
}

impl<A: Default> Layer<A> {
    /// A new layer with the default appearance.
    pub fn new(id: LayerId, name: String) -> (l: Self)
        ensures
            is_new_layer(l, id, name@),
    {
        Layer {
            id,
            name,
            appearance: A::default(),
            visible: true,
            z_index: 0,
            media_path: None,
            start_time: Time(0),
            duration: None,
            loop_enabled: false,
            playing: false,
            muted: false,
        }
    }
}

impl<A> Layer<A> {
    /// The layer playing the media at `path`.
    pub fn with_media(self, path: String) -> (l: Self)
        ensures
            l == (Layer { media_path: Some(path), ..self }),
    {
        let mut layer = self;
        layer.media_path = Some(path);
        layer
    }

    /// Set the z-index (the stack re-sorts on its next reorder or addition).
    pub fn set_z_index(&mut self, z: i32)
        ensures
            *final(self) == (Layer { z_index: z, ..*old(self) }),
    {
        self.z_index = z;
    }

    /// Start playback.
    pub fn play(&mut self)
        ensures
            *final(self) == (Layer { playing: true, ..*old(self) }),
    {
        self.playing = true;
    }

    /// Pause playback.
    pub fn pause(&mut self)
        ensures
            *final(self) == (Layer { playing: false, ..*old(self) }),
    {
        self.playing = false;
    }

    /// Toggle muting.
    pub fn toggle_mute(&mut self)
        ensures
            *final(self) == (Layer { muted: !old(self).muted, ..*old(self) }),
    {
        self.muted = !self.muted;
    }
}

/// Layers ordered back to front: z-indices never decrease.
pub open spec fn sorted_by_z<A>(s: Seq<Layer<A>>) -> bool {
    forall|i: int, j: int| 0 <= i <= j < s.len() ==> s[i].z_index <= s[j].z_index
}

/// The layers of `s` at z-index `z`, in their order in `s`.
pub open spec fn at_z<A>(s: Seq<Layer<A>>, z: i32) -> Seq<Layer<A>> {
    s.filter(|l: Layer<A>| l.z_index == z)
}

/// `t` is `s` sorted by z-index stably: sorted, of the same length, and with
/// the layers of each z-index in the order they have in `s`.
pub open spec fn z_ordered<A>(s: Seq<Layer<A>>, t: Seq<Layer<A>>) -> bool {
    &&& sorted_by_z(t)
    &&& t.len() == s.len()
    &&& forall|z: i32| #[trigger] at_z(t, z) == at_z(s, z)
}

/// The position of the first layer of `s` with identifier `id`, if any.
pub open spec fn first_with_id<A>(s: Seq<Layer<A>>, id: LayerId) -> Option<int> {
    if exists|i: int|
        0 <= i < s.len() && s[i].id == id && forall|j: int| 0 <= j < i ==> s[j].id != id {
        Some(
            choose|i: int|
                0 <= i < s.len() && s[i].id == id && forall|j: int| 0 <= j < i ==> s[j].id != id,
        )
    } else {
        None
    }
}

proof fn lemma_at_z_concat<A>(a: Seq<Layer<A>>, b: Seq<Layer<A>>, z: i32)
    ensures
        at_z(a + b, z) == at_z(a, z) + at_z(b, z),
{
    Seq::filter_distributes_over_add(a, b, |l: Layer<A>| l.z_index == z);
}

proof fn lemma_at_z_single<A>(x: Layer<A>, z: i32)
    ensures
        x.z_index == z ==> at_z(seq![x], z) == seq![x],
        x.z_index != z ==> at_z(seq![x], z) == Seq::<Layer<A>>::empty(),
{
    reveal_with_fuel(Seq::filter, 2);
    assert(seq![x].drop_last() =~= Seq::<Layer<A>>::empty());
}

proof fn lemma_at_z_none<A>(s: Seq<Layer<A>>, z: i32)
    requires
        forall|i: int| 0 <= i < s.len() ==> s[i].z_index != z,
    ensures
        at_z(s, z) == Seq::<Layer<A>>::empty(),
{
    let pred = |l: Layer<A>| l.z_index == z;
    assert(s.all(|x: Layer<A>| !pred(x)));
    s.lemma_all_neg_filter_empty(pred);
}

/// Lemma: placing `x` into a stably sorted prefix `p` at `j` — after every
/// layer of z-index at most `x`'s and before every greater one — keeps the
/// result sorted and stably ordered with respect to `p` followed by `x`.
proof fn lemma_insert_stable<A>(p: Seq<Layer<A>>, x: Layer<A>, j: int)
    requires
        sorted_by_z(p),
        0 <= j <= p.len(),
        j > 0 ==> p[j - 1].z_index <= x.z_index,
        forall|k: int| j <= k < p.len() ==> p[k].z_index > x.z_index,
    ensures
        sorted_by_z(p.insert(j, x)),
        forall|z: i32| #[trigger] at_z(p.insert(j, x), z) == at_z(p.push(x), z),
{
    let q = p.insert(j, x);
    let lo = p.subrange(0, j);
    let hi = p.subrange(j, p.len() as int);
    assert(q =~= lo + seq![x] + hi);
    assert(p =~= lo + hi);
    assert(p.push(x) =~= p + seq![x]);
    assert forall|a: int, b: int| 0 <= a <= b < q.len() implies q[a].z_index <= q[b].z_index by {
        if a < j && b < j {
        } else if a < j && b == j {
            assert(p[a].z_index <= p[j - 1].z_index);
        } else if a < j && b > j {
            assert(q[b] == p[b - 1]);
        } else if a == j && b > j {
            assert(q[b] == p[b - 1]);
        } else if a > j {
            assert(q[a] == p[a - 1] && q[b] == p[b - 1]);
        }
    }
    assert forall|z: i32| #[trigger] at_z(q, z) == at_z(p.push(x), z) by {
        lemma_at_z_concat(lo + seq![x], hi, z);
        lemma_at_z_concat(lo, seq![x], z);
        lemma_at_z_concat(lo, hi, z);
        lemma_at_z_concat(p, seq![x], z);
        lemma_at_z_single(x, z);
        if x.z_index == z {
            assert forall|i: int| 0 <= i < hi.len() implies hi[i].z_index != z by {
                assert(hi[i] == p[j + i]);
            }
            lemma_at_z_none(hi, z);
            assert(at_z(lo, z) + Seq::<Layer<A>>::empty() =~= at_z(lo, z));
            assert(at_z(hi, z) + seq![x] =~= seq![x]);
            assert(at_z(lo, z) + seq![x] + at_z(hi, z) =~= at_z(lo, z) + at_z(hi, z) + seq![x]);
        } else {
            assert(at_z(lo, z) + Seq::<Layer<A>>::empty() =~= at_z(lo, z));
            assert(at_z(p, z) + Seq::<Layer<A>>::empty() =~= at_z(p, z));
        }
    }
}

/// Sort layers by z-index, keeping the order of layers with equal z-index.
fn sort_by_z<A>(layers: &mut Vec<Layer<A>>)
    ensures
        z_ordered(old(layers)@, final(layers)@),
{
    broadcast use vstd::seq_lib::group_seq_properties;

    let ghost s0 = layers@;
    let n = layers.len();
    let mut i: usize = 0;
    while i < n
        invariant
            i <= n,
            n == s0.len(),
            layers@.len() == n,
            sorted_by_z(layers@.subrange(0, i as int)),
            forall|z: i32| #[trigger]
                at_z(layers@.subrange(0, i as int), z) == at_z(s0.subrange(0, i as int), z),
            layers@.subrange(i as int, n as int) == s0.subrange(i as int, n as int),
        decreases n - i,
    {
        let ghost before = layers@;
        let ghost p = before.subrange(0, i as int);
        assert(before[i as int] == s0[i as int]) by {
            assert(before.subrange(i as int, n as int)[0] == s0.subrange(i as int, n as int)[0]);
        }
        let x = layers.remove(i);
        assert(layers@.subrange(0, i as int) =~= p);
        let mut j = i;
        while j > 0 && layers[j - 1].z_index > x.z_index
            invariant
                j <= i,
                i < n,
                layers@.len() == n - 1,
                before.len() == n,
                layers@ == before.remove(i as int),
                p == before.subrange(0, i as int),
                forall|k: int| j <= k < i ==> p[k].z_index > x.z_index,
            decreases j,
        {
            assert(layers@[j - 1] == p[j - 1]);
            j = j - 1;
        }
        let ghost rest = layers@.subrange(i as int, (n - 1) as int);
        layers.insert(j, x);
        proof {
            lemma_insert_stable(p, x, j as int);
            assert(layers@.subrange(0, (i + 1) as int) =~= p.insert(j as int, x));
            assert(s0.subrange(0, (i + 1) as int) =~= s0.subrange(0, i as int).push(x));
            assert forall|z: i32| #[trigger]
                at_z(layers@.subrange(0, (i + 1) as int), z) == at_z(
                    s0.subrange(0, (i + 1) as int),
                    z,
                ) by {
                lemma_at_z_concat(p, seq![x], z);
                lemma_at_z_concat(s0.subrange(0, i as int), seq![x], z);
                assert(p.push(x) =~= p + seq![x]);
                assert(s0.subrange(0, i as int).push(x) =~= s0.subrange(0, i as int) + seq![x]);
            }
            assert forall|k: int| i + 1 <= k < n implies #[trigger] layers@[k] == s0[k] by {
                assert(layers@[k] == before[k]);
                assert(before.subrange(i as int, n as int)[k - i] == s0.subrange(
                    i as int,
                    n as int,
                )[k - i]);
            }
            assert(layers@.subrange((i + 1) as int, n as int) =~= s0.subrange(
                (i + 1) as int,
                n as int,
            ));
        }
        i = i + 1;
    }
    proof {
        assert(layers@.subrange(0, n as int) =~= layers@);
        assert(s0.subrange(0, n as int) =~= s0);
    }
}

} // verus!

verus! {

/// Collection of layers ordered back to front by z-index.
#[derive(Debug)]
pub struct LayerStack<A> {
    layers: Vec<Layer<A>>,
    next_id: LayerId,
}

/// `first_with_id` pins the first matching position.
proof fn lemma_first_with_id<A>(s: Seq<Layer<A>>, id: LayerId, i: int)
    requires
        0 <= i < s.len(),
        s[i].id == id,
        forall|j: int| 0 <= j < i ==> s[j].id != id,
    ensures
        first_with_id(s, id) == Some(i),
{
    let c = choose|c: int|
        0 <= c < s.len() && s[c].id == id && forall|j: int| 0 <= j < c ==> s[j].id != id;
    assert(0 <= c < s.len() && s[c].id == id && forall|j: int| 0 <= j < c ==> s[j].id != id);
    if c < i {
        assert(s[c].id != id);
    } else if c > i {
        assert(s[i].id != id);
    }
}

impl<A> LayerStack<A> {
    /// The layers, back to front.
    pub closed spec fn ordered(&self) -> Seq<Layer<A>> {
        self.layers@
    }

    /// The identifier the next added layer gets.
    pub closed spec fn upcoming_id(&self) -> LayerId {
        self.next_id
    }

    /// An empty stack whose first layer gets identifier 1.
    pub fn new() -> (s: Self)
        ensures
            s.ordered() == Seq::<Layer<A>>::empty(),
            s.upcoming_id() == LayerId(1),
    {
        LayerStack { layers: Vec::new(), next_id: LayerId(1) }
    }

    /// A stack holding `layers` in the given order, whose next layer gets `next_id`.
    pub fn from_parts(layers: Vec<Layer<A>>, next_id: LayerId) -> (s: Self)
        ensures
            s.ordered() == layers@,
            s.upcoming_id() == next_id,
    {
        LayerStack { layers, next_id }
    }

    /// The identifier the next added layer gets.
    pub fn next_id(&self) -> (id: LayerId)
        ensures
            id == self.upcoming_id(),
    {
        self.next_id
    }

    /// The position of the first layer with identifier `id`.
    fn position(&self, id: LayerId) -> (pos: Option<usize>)
        ensures
            match pos {
                Some(q) => first_with_id(self.ordered(), id) == Some(q as int) && q
                    < self.ordered().len() && self.ordered()[q as int].id == id,
                None => first_with_id(self.ordered(), id).is_none(),
            },
    {
        let mut i: usize = 0;
        while i < self.layers.len()
            invariant
                i <= self.layers@.len(),
                forall|j: int| 0 <= j < i ==> self.layers@[j].id != id,
            decreases self.layers@.len() - i,
        {
            if self.layers[i].id == id {
                proof {
                    lemma_first_with_id(self.layers@, id, i as int);
                }
                return Some(i);
            }
            i = i + 1;
        }
        assert(!exists|k: int|
            0 <= k < self.layers@.len() && self.layers@[k].id == id && forall|j: int|
                0 <= j < k ==> self.layers@[j].id != id);
        None
    }

    /// Remove the first layer with identifier `id`; whether there was one.
    pub fn remove_layer(&mut self, id: LayerId) -> (removed: bool)
        ensures
            final(self).upcoming_id() == old(self).upcoming_id(),
            match first_with_id(old(self).ordered(), id) {
                Some(p) => removed && final(self).ordered() == old(self).ordered().remove(p),
                None => !removed && final(self).ordered() == old(self).ordered(),
            },
    {
        match self.position(id) {
            Some(pos) => {
                self.layers.remove(pos);
                true
            },
            None => false,
        }
    }

    /// The first layer with identifier `id`.
    pub fn get_layer(&self, id: LayerId) -> (layer: Option<&Layer<A>>)
        ensures
            match first_with_id(self.ordered(), id) {
                Some(p) => layer == Some(&self.ordered()[p]),
                None => layer.is_none(),
            },
    {
        match self.position(id) {
            Some(pos) => Some(&self.layers[pos]),
            None => None,
        }
    }

    /// The first layer with identifier `id`, for modification.
    pub fn get_layer_mut(&mut self, id: LayerId) -> (layer: Option<&mut Layer<A>>)
        ensures
            match first_with_id(old(self).ordered(), id) {
                Some(p) => layer matches Some(l) && *l == old(self).ordered()[p]
                    && final(self).ordered() == old(self).ordered().update(p, *final(l)),
                None => layer.is_none() && final(self).ordered() == old(self).ordered(),
            },
            final(self).upcoming_id() == old(self).upcoming_id(),
    {
        match self.position(id) {
            Some(pos) => Some(&mut self.layers[pos]),
            None => None,
        }
    }

    /// The layers, back to front.
    pub fn layers(&self) -> (layers: &[Layer<A>])
        ensures
            layers@ == self.ordered(),
    {
        self.layers.as_slice()
    }

    /// The layers, back to front, for modification.
    pub fn layers_mut(&mut self) -> (layers: &mut [Layer<A>])
        ensures
            layers@ == old(self).ordered(),
            final(layers)@ == final(self).ordered(),
            final(self).upcoming_id() == old(self).upcoming_id(),
    {
        self.layers.as_mut_slice()
    }

    /// The layers in rendering order: back to front, low z-index to high.
    pub fn render_order(&self) -> (order: std::slice::Iter<'_, Layer<A>>)
        ensures
            order.remaining() == self.ordered().as_ref(),
    {
        broadcast use vstd::std_specs::slice::axiom_spec_slice_iter;

        self.layers.as_slice().iter()
    }

    /// The layers in reverse rendering order: front to back.
    pub fn reverse_render_order(&self) -> (order: std::iter::Rev<std::slice::Iter<'_, Layer<A>>>)
        ensures
            order.remaining() == self.ordered().as_ref().reverse(),
    {
        broadcast use vstd::std_specs::slice::axiom_spec_slice_iter;

        self.layers.as_slice().iter().rev()
    }

    /// Give the first layer with identifier `id` z-index `new_z`, then re-sort
    /// the stack by z-index (stably).
    pub fn reorder_layer(&mut self, id: LayerId, new_z: i32)
        ensures
            final(self).upcoming_id() == old(self).upcoming_id(),
            match first_with_id(old(self).ordered(), id) {
                Some(p) => z_ordered(
                    old(self).ordered().update(p, Layer { z_index: new_z, ..old(self).ordered()[p] }),
                    final(self).ordered(),
                ),
                None => z_ordered(old(self).ordered(), final(self).ordered()),
            },
    {
        if let Some(pos) = self.position(id) {
            self.layers[pos].z_index = new_z;
        }
        sort_by_z(&mut self.layers);
    }
}

impl<A: Default> LayerStack<A> {
    /// Add a layer named `name` with the next identifier and the default
    /// appearance, then re-sort the stack by z-index (stably).
    pub fn add_layer(&mut self, name: String) -> (id: LayerId)
        requires
            old(self).upcoming_id().0 < u64::MAX,
        ensures
            id == old(self).upcoming_id(),
            final(self).upcoming_id() == LayerId((id.0 + 1) as u64),
            exists|l: Layer<A>|
                is_new_layer(l, id, name@) && z_ordered(
                    old(self).ordered().push(l),
                    final(self).ordered(),
                ),
    {
        let id = self.next_id;
        self.next_id = self.next_id.next();
        let layer = Layer::new(id, name);
        let ghost added = layer;
        self.layers.push(layer);
        sort_by_z(&mut self.layers);
        assert(is_new_layer(added, id, name@));
        id
    }
}

impl<A> Default for LayerStack<A> {
    fn default() -> (s: Self)
        ensures
            s.ordered() == Seq::<Layer<A>>::empty(),
            s.upcoming_id() == LayerId(1),
    {
        Self::new()
    }
}

} // verus!

verus! {

/// No two layers of `s` share an identifier.
pub open spec fn ids_distinct<A>(s: Seq<Layer<A>>) -> bool {
    forall|i: int, j: int| 0 <= i < j < s.len() ==> s[i].id != s[j].id
}

/// Every layer of `s` has an identifier below `next`.
pub open spec fn ids_below<A>(s: Seq<Layer<A>>, next: LayerId) -> bool {
    forall|i: int| 0 <= i < s.len() ==> s[i].id.0 < next.0
}

/// The numbering a stack keeps: distinct identifiers, all below the one the
/// next added layer gets.
pub open spec fn well_numbered<A>(s: Seq<Layer<A>>, next: LayerId) -> bool {
    ids_distinct(s) && ids_below(s, next)
}

/// A layer occurs as often in `s` as in the layers of `s` at its own z-index.
proof fn lemma_count_at_z<A>(s: Seq<Layer<A>>, x: Layer<A>)
    ensures
        s.to_multiset().count(x) == at_z(s, x.z_index).to_multiset().count(x),
    decreases s.len(),
{
    broadcast use vstd::multiset::group_multiset_axioms;
    broadcast use vstd::seq_lib::to_multiset_build;

    let pred = |l: Layer<A>| l.z_index == x.z_index;
    if s.len() == 0 {
        lemma_at_z_none(s, x.z_index);
        assert(at_z(s, x.z_index) =~= s);
    } else {
        let p = s.drop_last();
        let y = s.last();
        assert(s =~= p.push(y));
        lemma_count_at_z(p, x);
        p.lemma_filter_push(y, pred);
        if pred(y) {
            assert(at_z(s, x.z_index) == at_z(p, x.z_index).push(y));
        } else {
            assert(at_z(s, x.z_index) == at_z(p, x.z_index));
            assert(y != x);
        }
    }
}

/// Law: sorting the stack by z-index keeps exactly the layers it had — none
/// is lost and none is duplicated.
pub proof fn law_z_order_keeps_layers<A>(s: Seq<Layer<A>>, t: Seq<Layer<A>>)
    requires
        z_ordered(s, t),
    ensures
        t.to_multiset() == s.to_multiset(),
{
    assert forall|x: Layer<A>| t.to_multiset().count(x) == s.to_multiset().count(x) by {
        lemma_count_at_z(s, x);
        lemma_count_at_z(t, x);
        assert(at_z(t, x.z_index) == at_z(s, x.z_index));
    }
    assert(t.to_multiset() =~= s.to_multiset());
}

/// What one sequence holds, a rearrangement of it holds too.
proof fn lemma_transfer_contains<A>(t: Seq<Layer<A>>, u: Seq<Layer<A>>, x: Layer<A>)
    requires
        t.to_multiset() == u.to_multiset(),
        t.contains(x),
    ensures
        u.contains(x),
{
    vstd::seq_lib::to_multiset_contains(t, x);
    vstd::seq_lib::to_multiset_contains(u, x);
}

/// Rearranging layers keeps a well-formed numbering well-formed.
proof fn lemma_well_numbered_permuted<A>(u: Seq<Layer<A>>, t: Seq<Layer<A>>, next: LayerId)
    requires
        well_numbered(u, next),
        t.to_multiset() == u.to_multiset(),
    ensures
        well_numbered(t, next),
{
    broadcast use vstd::seq_lib::to_multiset_contains;
    broadcast use vstd::multiset::group_multiset_axioms;

    assert forall|i: int| 0 <= i < t.len() implies t[i].id.0 < next.0 by {
        lemma_transfer_contains(t, u, t[i]);
    }
    assert(u.no_duplicates()) by {
        assert forall|i: int, j: int| 0 <= i < u.len() && 0 <= j < u.len() && i != j implies u[i]
            != u[j] by {
            if i < j {
                assert(u[i].id != u[j].id);
            } else {
                assert(u[j].id != u[i].id);
            }
        }
    }
    u.lemma_multiset_has_no_duplicates();
    t.lemma_multiset_has_no_duplicates_conv();
    assert forall|i: int, j: int| 0 <= i < j < t.len() implies t[i].id != t[j].id by {
        lemma_transfer_contains(t, u, t[i]);
        lemma_transfer_contains(t, u, t[j]);
        let a = choose|a: int| 0 <= a < u.len() && u[a] == t[i];
        let b = choose|b: int| 0 <= b < u.len() && u[b] == t[j];
        if t[i].id == t[j].id {
            if a < b {
                assert(u[a].id != u[b].id);
            } else if b < a {
                assert(u[b].id != u[a].id);
            } else {
                assert(t[i] == t[j]);
            }
        }
    }
}

/// The first layer carrying a distinct identifier is the only one carrying it.
proof fn lemma_first_with_id_unique<A>(s: Seq<Layer<A>>, p: int)
    requires
        ids_distinct(s),
        0 <= p < s.len(),
    ensures
        first_with_id(s, s[p].id) == Some(p),
{
    assert forall|j: int| 0 <= j < p implies s[j].id != s[p].id by {}
    lemma_first_with_id(s, s[p].id, p);
}

/// Law: an empty stack is well numbered.
pub proof fn law_new_stack_well_numbered<A>(s: LayerStack<A>)
    requires
        s.ordered() == Seq::<Layer<A>>::empty(),
        s.upcoming_id() == LayerId(1),
    ensures
        well_numbered(s.ordered(), s.upcoming_id()),
{
}

/// Law: adding a layer to a well-numbered stack keeps it well numbered, and
/// looking up the returned identifier finds the layer just added.
pub proof fn law_add_layer_then_get<A>(
    before: LayerStack<A>,
    after: LayerStack<A>,
    id: LayerId,
    name: Seq<char>,
)
    requires
        well_numbered(before.ordered(), before.upcoming_id()),
        id == before.upcoming_id(),
        after.upcoming_id() == LayerId((id.0 + 1) as u64),
        id.0 < u64::MAX,
        exists|l: Layer<A>|
            is_new_layer(l, id, name) && z_ordered(before.ordered().push(l), after.ordered()),
    ensures
        well_numbered(after.ordered(), after.upcoming_id()),
        first_with_id(after.ordered(), id) matches Some(p) && is_new_layer(
            after.ordered()[p],
            id,
            name,
        ),
        after.ordered().len() == before.ordered().len() + 1,
{
    broadcast use vstd::seq_lib::to_multiset_contains;

    let l = choose|l: Layer<A>|
        is_new_layer(l, id, name) && z_ordered(before.ordered().push(l), after.ordered());
    let s = before.ordered();
    let u = s.push(l);
    let t = after.ordered();
    assert(well_numbered(u, after.upcoming_id())) by {
        assert forall|i: int, j: int| 0 <= i < j < u.len() implies u[i].id != u[j].id by {
            if j < s.len() {
                assert(u[i] == s[i] && u[j] == s[j]);
            } else {
                assert(u[i] == s[i]);
                assert(s[i].id.0 < id.0);
            }
        }
    }
    law_z_order_keeps_layers(u, t);
    lemma_well_numbered_permuted(u, t, after.upcoming_id());
    assert(u[s.len() as int] == l);
    assert(u.contains(l));
    lemma_transfer_contains(u, t, l);
    let p = choose|p: int| 0 <= p < t.len() && t[p] == l;
    lemma_first_with_id_unique(t, p);
}

/// Law: giving a layer of a well-numbered stack a new z-index keeps the stack
/// well numbered, and looking the layer up afterwards finds it at that z-index.
pub proof fn law_reorder_then_get<A>(
    before: LayerStack<A>,
    after: LayerStack<A>,
    id: LayerId,
    new_z: i32,
)
    requires
        well_numbered(before.ordered(), before.upcoming_id()),
        after.upcoming_id() == before.upcoming_id(),
        match first_with_id(before.ordered(), id) {
            Some(p) => z_ordered(
                before.ordered().update(p, Layer { z_index: new_z, ..before.ordered()[p] }),
                after.ordered(),
            ),
            None => z_ordered(before.ordered(), after.ordered()),
        },
    ensures
        well_numbered(after.ordered(), after.upcoming_id()),
        match first_with_id(before.ordered(), id) {
            Some(p) => first_with_id(after.ordered(), id) matches Some(q) && after.ordered()[q]
                == (Layer { z_index: new_z, ..before.ordered()[p] }),
            None => first_with_id(after.ordered(), id).is_none(),
        },
{
    broadcast use vstd::seq_lib::to_multiset_contains;

    let s = before.ordered();
    let t = after.ordered();
    let next = before.upcoming_id();
    match first_with_id(s, id) {
        Some(p) => {
            let c = choose|c: int|
                0 <= c < s.len() && s[c].id == id && forall|j: int| 0 <= j < c ==> s[j].id != id;
            assert(p == c);
            let x = Layer { z_index: new_z, ..s[p] };
            let u = s.update(p, x);
            assert(well_numbered(u, next)) by {
                assert forall|i: int, j: int| 0 <= i < j < u.len() implies u[i].id != u[j].id by {
                    assert(s[i].id != s[j].id);
                }
            }
            law_z_order_keeps_layers(u, t);
            lemma_well_numbered_permuted(u, t, next);
            assert(u[p] == x);
            assert(u.contains(x));
            lemma_transfer_contains(u, t, x);
            let q = choose|q: int| 0 <= q < t.len() && t[q] == x;
            lemma_first_with_id_unique(t, q);
        },
        None => {
            law_z_order_keeps_layers(s, t);
            lemma_well_numbered_permuted(s, t, next);
            if first_with_id(t, id) is Some {
                let q = choose|q: int|
                    0 <= q < t.len() && t[q].id == id && forall|j: int|
                        0 <= j < q ==> t[j].id != id;
                assert(t.contains(t[q]));
                lemma_transfer_contains(t, s, t[q]);
                let a = choose|a: int| 0 <= a < s.len() && s[a] == t[q];
                lemma_first_with_id_unique(s, a);
            }
        },
    }
}

/// Law: removing a layer from a well-numbered stack keeps it well numbered,
/// and the identifier is not found afterwards.
pub proof fn law_remove_then_get<A>(
    before: LayerStack<A>,
    after: LayerStack<A>,
    id: LayerId,
    removed: bool,
)
    requires
        well_numbered(before.ordered(), before.upcoming_id()),
        after.upcoming_id() == before.upcoming_id(),
        match first_with_id(before.ordered(), id) {
            Some(p) => removed && after.ordered() == before.ordered().remove(p),
            None => !removed && after.ordered() == before.ordered(),
        },
    ensures
        well_numbered(after.ordered(), after.upcoming_id()),
        first_with_id(after.ordered(), id).is_none(),
        removed <==> exists|i: int| 0 <= i < before.ordered().len() && before.ordered()[i].id == id,
{
    let s = before.ordered();
    let t = after.ordered();
    match first_with_id(s, id) {
        Some(p) => {
            let c = choose|c: int|
                0 <= c < s.len() && s[c].id == id && forall|j: int| 0 <= j < c ==> s[j].id != id;
            assert(p == c);
            assert forall|i: int, j: int| 0 <= i < j < t.len() implies t[i].id != t[j].id by {
                if j < p {
                } else if i < p {
                    assert(t[j] == s[j + 1]);
                } else {
                    assert(t[i] == s[i + 1] && t[j] == s[j + 1]);
                }
            }
            assert forall|i: int| 0 <= i < t.len() implies t[i].id != id by {
                if i < p {
                    assert(s[i].id != s[p].id);
                } else {
                    assert(t[i] == s[i + 1]);
                    assert(s[p].id != s[i + 1].id);
                }
            }
            assert(!exists|k: int|
                0 <= k < t.len() && t[k].id == id && forall|j: int| 0 <= j < k ==> t[j].id != id);
        },
        None => {
            if exists|i: int| 0 <= i < s.len() && s[i].id == id {
                let i = choose|i: int| 0 <= i < s.len() && s[i].id == id;
                lemma_first_with_id_unique(s, i);
            }
        },
    }
}

} // verus!

verus! {

/// The number of `add_layer` calls among `adds` (true for an addition).
pub open spec fn count_adds(adds: Seq<bool>) -> nat
    decreases adds.len(),
{
    if adds.len() == 0 {
        0
    } else {
        count_adds(adds.drop_last()) + if adds.last() {
            1nat
        } else {
            0nat
        }
    }
}

/// `after` follows `before` by one call on the stack: an `add_layer` call
/// (`add`), which moves the next identifier on by one, or any other call,
/// which keeps it.
pub open spec fn numbering_step<A>(before: LayerStack<A>, after: LayerStack<A>, add: bool) -> bool {
    if add {
        after.upcoming_id().0 == before.upcoming_id().0 + 1
    } else {
        after.upcoming_id() == before.upcoming_id()
    }
}

proof fn lemma_upcoming_counts_adds<A>(history: Seq<LayerStack<A>>, adds: Seq<bool>, k: int)
    requires
        history.len() == adds.len() + 1,
        history[0].upcoming_id() == LayerId(1),
        forall|i: int|
            0 <= i < adds.len() ==> numbering_step(history[i], history[i + 1], #[trigger] adds[i]),
        0 <= k <= adds.len(),
    ensures
        history[k].upcoming_id().0 == count_adds(adds.take(k)) + 1,
    decreases k,
{
    if k == 0 {
        assert(adds.take(0) =~= Seq::<bool>::empty());
    } else {
        lemma_upcoming_counts_adds(history, adds, k - 1);
        assert(adds.take(k).drop_last() =~= adds.take(k - 1));
        assert(numbering_step(history[k - 1], history[k], adds[k - 1]));
    }
}

proof fn lemma_count_adds_grows(adds: Seq<bool>, i: int, j: int)
    requires
        0 <= i <= j <= adds.len(),
    ensures
        count_adds(adds.take(i)) <= count_adds(adds.take(j)),
        i < j && adds[i] ==> count_adds(adds.take(i)) < count_adds(adds.take(j)),
    decreases j - i,
{
    if i < j {
        lemma_count_adds_grows(adds, i, j - 1);
        assert(adds.take(j).drop_last() =~= adds.take(j - 1));
        if i == j - 1 {
            assert(adds.take(j).last() == adds[i]);
        }
    }
}

/// Law: on a stack made by `new`, the identifier the k-th `add_layer` call
/// returns is k, and no identifier is handed out twice, whatever layers were
/// removed or reordered in between. (`add_layer` returns the next identifier
/// of the stack it is called on.)
pub proof fn law_added_ids_never_reused<A>(history: Seq<LayerStack<A>>, adds: Seq<bool>)
    requires
        history.len() == adds.len() + 1,
        history[0].upcoming_id() == LayerId(1),
        forall|i: int|
            0 <= i < adds.len() ==> numbering_step(history[i], history[i + 1], #[trigger] adds[i]),
    ensures
        forall|i: int|
            0 <= i < adds.len() && #[trigger] adds[i] ==> history[i].upcoming_id().0 == count_adds(
                adds.take(i + 1),
            ),
        forall|i: int, j: int|
            0 <= i < j < adds.len() && #[trigger] adds[i] && #[trigger] adds[j]
                ==> history[i].upcoming_id() != history[j].upcoming_id(),
{
    assert forall|i: int| 0 <= i < adds.len() && #[trigger] adds[i] implies history[i].upcoming_id().0
        == count_adds(adds.take(i + 1)) by {
        lemma_upcoming_counts_adds(history, adds, i);
        assert(adds.take(i + 1).drop_last() =~= adds.take(i));
    }
    assert forall|i: int, j: int|
        0 <= i < j < adds.len() && #[trigger] adds[i] && #[trigger] adds[j] implies history[i].upcoming_id()
        != history[j].upcoming_id() by {
        lemma_upcoming_counts_adds(history, adds, i);
        lemma_upcoming_counts_adds(history, adds, j);
        lemma_count_adds_grows(adds, i, j);
    }
}

} // verus!
