//! The accumulated tracking snapshot: the latest value of every named
//! blendshape and bone channel, folded in packet by packet, and the
//! enumeration of bindable inputs it offers.

use vstd::arithmetic::div_mod::lemma_fundamental_div_mod_converse;
use vstd::prelude::*;

use crate::keyed::{insert_entry, KeyedList};
use crate::tracker::{axis_order, InputBoneKind, InputKind};

verus! {

/// The six axis values of one tracked bone, in thousandths of a unit.
#[derive(Clone, Copy, Debug, PartialEq, Eq)]
pub struct BoneValues {
    pub x: i64,
    pub y: i64,
    pub z: i64,
    pub roll: i64,
    pub pitch: i64,
    pub yaw: i64,
}

/// One decoded channel update carried by a tracking packet.
#[derive(Clone, Debug, PartialEq)]
pub enum ChannelUpdate {
    Blendshape(String, i64),
    Bone(String, BoneValues),
}

/// The blendshape and bone entries after folding in one channel update:
/// the named channel takes the new value, every other channel keeps its own.
pub open spec fn apply_one(
    blends: Seq<(Seq<char>, i64)>,
    bones: Seq<(Seq<char>, BoneValues)>,
    u: ChannelUpdate,
) -> (Seq<(Seq<char>, i64)>, Seq<(Seq<char>, BoneValues)>) {
    match u {
        ChannelUpdate::Blendshape(n, v) => (insert_entry(blends, n@, v), bones),
        ChannelUpdate::Bone(n, v) => (blends, insert_entry(bones, n@, v)),
    }
}

/// The entries after folding in a whole sequence of updates, first to last.
pub open spec fn apply_all(
    blends: Seq<(Seq<char>, i64)>,
    bones: Seq<(Seq<char>, BoneValues)>,
    us: Seq<ChannelUpdate>,
) -> (Seq<(Seq<char>, i64)>, Seq<(Seq<char>, BoneValues)>)
    decreases us.len(),
{
    if us.len() == 0 {
        (blends, bones)
    } else {
        let prev = apply_all(blends, bones, us.drop_last());
        apply_one(prev.0, prev.1, us.last())
    }
}

/// The latest accumulated set of tracking channel values: a weight per
/// blendshape name and six axis values per bone name.
pub struct TrackingSnapshot {
    pub blends: KeyedList<i64>,
    pub bones: KeyedList<BoneValues>,
}

impl TrackingSnapshot {
    /// Both channel tables carry pairwise-distinct names.
    pub open spec fn wf(self) -> bool {
        self.blends.wf() && self.bones.wf()
    }

    /// No channel has been recorded.
    pub open spec fn is_empty(self) -> bool {
        self.blends@.len() == 0 && self.bones@.len() == 0
    }

    pub fn new() -> (r: Self)
        ensures
            r.is_empty(),
            r.wf(),
    {
        TrackingSnapshot { blends: KeyedList::new(), bones: KeyedList::new() }
    }

    /// Folds one decoded channel update into the snapshot.
    pub fn apply_update(&mut self, u: ChannelUpdate)
        requires
            old(self).wf(),
        ensures
            final(self).wf(),
            final(self).blends@ == apply_one(old(self).blends@, old(self).bones@, u).0,
            final(self).bones@ == apply_one(old(self).blends@, old(self).bones@, u).1,
    {
        match u {
            ChannelUpdate::Blendshape(n, v) => self.blends.insert(n, v),
            ChannelUpdate::Bone(n, v) => self.bones.insert(n, v),
        }
    }

    /// Folds a whole decoded packet into the snapshot, first update to last,
    /// so that the last update to a channel wins.
    pub fn apply_packet(&mut self, updates: Vec<ChannelUpdate>)
        requires
            old(self).wf(),
        ensures
            final(self).wf(),
            final(self).blends@ == apply_all(old(self).blends@, old(self).bones@, updates@).0,
            final(self).bones@ == apply_all(old(self).blends@, old(self).bones@, updates@).1,
    {
        let ghost us0 = updates@;
        let mut rest = updates;
        let ghost b0 = self.blends@;
        let ghost k0 = self.bones@;
        while rest.len() > 0
            invariant
                self.wf(),
                rest@.len() <= us0.len(),
                rest@ == us0.skip(us0.len() - rest@.len()),
                self.blends@ == apply_all(b0, k0, us0.take(us0.len() - rest@.len())).0,
                self.bones@ == apply_all(b0, k0, us0.take(us0.len() - rest@.len())).1,
            decreases rest@.len(),
        {
            let ghost done: int = us0.len() - rest@.len();
            let u = rest.remove(0);
            proof {
                assert(u == us0[done]);
                assert(rest@ =~= us0.skip(us0.len() - rest@.len()));
            }
            self.apply_update(u);
            proof {
                assert(us0.take(done + 1).drop_last() =~= us0.take(done));
                assert(us0.take(done + 1).last() == us0[done]);
            }
        }
        proof {
            assert(us0.take(us0.len() as int) =~= us0);
        }
    }

    /// Clears every recorded channel.
    pub fn clear(&mut self)
        ensures
            final(self).is_empty(),
            final(self).wf(),
    {
        self.blends.clear();
        self.bones.clear();
    }

    /// The recorded weight of a blendshape, if any.
    pub fn get_blend(&self, name: &String) -> (r: Option<i64>)
        requires
            self.wf(),
        ensures
            match r {
                Some(v) => crate::keyed::has_name(self.blends@, name@) && v
                    == crate::keyed::value_of_name(self.blends@, name@),
                None => !crate::keyed::has_name(self.blends@, name@),
            },
    {
        match self.blends.get(name) {
            Some(v) => Some(*v),
            None => None,
        }
    }

    /// The recorded axis values of a bone, if any.
    pub fn get_bone(&self, name: &String) -> (r: Option<BoneValues>)
        requires
            self.wf(),
        ensures
            match r {
                Some(v) => crate::keyed::has_name(self.bones@, name@) && v
                    == crate::keyed::value_of_name(self.bones@, name@),
                None => !crate::keyed::has_name(self.bones@, name@),
            },
    {
        match self.bones.get(name) {
            Some(v) => Some(*v),
            None => None,
        }
    }
}

/// The ordered list of inputs a binding may refer to: no input first, then
/// one entry per recorded blendshape, then the six axes of each recorded
/// bone, axes in presentation order.
pub fn enumerate_inputs(snapshot: &TrackingSnapshot) -> (r: Vec<InputKind>)
    ensures
        r@.len() == 1 + snapshot.blends@.len() + 6 * snapshot.bones@.len(),
        r@[0] == InputKind::NoInput,
        forall|i: int|
            1 <= i < 1 + snapshot.blends@.len() ==> ((#[trigger] r@[i]) matches
            InputKind::Blendshape(n) && n@ == snapshot.blends@[i - 1].0),
        forall|i: int|
            1 + snapshot.blends@.len() <= i < r@.len() ==> {
                let off = i - 1 - snapshot.blends@.len();
                (#[trigger] r@[i]) matches InputKind::Bone(n, a) && n@ == snapshot.bones@[off
                    / 6].0 && a == axis_order(off % 6)
            },
{
    let mut r: Vec<InputKind> = Vec::new();
    r.push(InputKind::NoInput);
    let nb = snapshot.blends.len();
    let mut i: usize = 0;
    while i < nb
        invariant
            nb == snapshot.blends@.len(),
            i <= nb,
            r@.len() == 1 + i,
            r@[0] == InputKind::NoInput,
            forall|k: int|
                1 <= k < 1 + i ==> ((#[trigger] r@[k]) matches InputKind::Blendshape(n) && n@
                    == snapshot.blends@[k - 1].0),
        decreases nb - i,
    {
        let entry = snapshot.blends.entry_at(i);
        r.push(InputKind::Blendshape(entry.0.clone()));
        i = i + 1;
    }
    let nk = snapshot.bones.len();
    let mut j: usize = 0;
    while j < nk
        invariant
            nb == snapshot.blends@.len(),
            nk == snapshot.bones@.len(),
            j <= nk,
            r@.len() == 1 + nb + 6 * j,
            r@[0] == InputKind::NoInput,
            forall|k: int|
                1 <= k < 1 + nb ==> ((#[trigger] r@[k]) matches InputKind::Blendshape(n) && n@
                    == snapshot.blends@[k - 1].0),
            forall|k: int|
                1 + nb <= k < r@.len() ==> {
                    let off = k - 1 - nb;
                    (#[trigger] r@[k]) matches InputKind::Bone(n, a) && n@ == snapshot.bones@[off
                        / 6].0 && a == axis_order(off % 6)
                },
        decreases nk - j,
    {
        let entry = snapshot.bones.entry_at(j);
        let name = &entry.0;
        r.push(InputKind::Bone(name.clone(), InputBoneKind::X));
        r.push(InputKind::Bone(name.clone(), InputBoneKind::Y));
        r.push(InputKind::Bone(name.clone(), InputBoneKind::Z));
        r.push(InputKind::Bone(name.clone(), InputBoneKind::Roll));
        r.push(InputKind::Bone(name.clone(), InputBoneKind::Pitch));
        r.push(InputKind::Bone(name.clone(), InputBoneKind::Yaw));
        proof {
            let j0 = j as int;
            lemma_fundamental_div_mod_converse(6 * j0 + 0, 6, j0, 0);
            lemma_fundamental_div_mod_converse(6 * j0 + 1, 6, j0, 1);
            lemma_fundamental_div_mod_converse(6 * j0 + 2, 6, j0, 2);
            lemma_fundamental_div_mod_converse(6 * j0 + 3, 6, j0, 3);
            lemma_fundamental_div_mod_converse(6 * j0 + 4, 6, j0, 4);
            lemma_fundamental_div_mod_converse(6 * j0 + 5, 6, j0, 5);
        }
        j = j + 1;
    }
    r
}

} // verus!
