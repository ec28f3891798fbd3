//! The last reported value of each analog controller axis.
use vstd::prelude::*;
use vstd::arithmetic::div_mod::lemma_fundamental_div_mod_converse;
use std::collections::HashMap;

verus! {

broadcast use vstd::std_specs::hash::group_hash_axioms;

/// Keys of the table stay below this bound: a 32-bit device times 256.
pub const KEY_LIMIT: u64 = 0x100_0000_0000;

/// The table key of axis `axis` on device `device`: the device times 256,
/// plus the axis.
pub open spec fn axis_key(device: u32, axis: u8) -> u64 {
    (device * 256 + axis) as u64
}

/// The (device, axis) pair that a key below `KEY_LIMIT` stands for.
pub open spec fn key_pair(k: u64) -> (u32, u8) {
    ((k / 256) as u32, (k % 256) as u8)
}

/// Keys and pairs correspond one to one.
pub proof fn lemma_axis_key_round_trip(device: u32, axis: u8, k: u64)
    ensures
        key_pair(axis_key(device, axis)) == (device, axis),
        axis_key(device, axis) < KEY_LIMIT,
        k < KEY_LIMIT ==> axis_key(key_pair(k).0, key_pair(k).1) == k,
{
    let n = device * 256 + axis;
    assert(0 <= n < KEY_LIMIT) by (nonlinear_arith)
        requires
            n == device * 256 + axis,
            0 <= device < 0x1_0000_0000,
            0 <= axis < 256,
    ;
    lemma_fundamental_div_mod_converse(n, 256, device as int, axis as int);
    if k < KEY_LIMIT {
        vstd::arithmetic::div_mod::lemma_fundamental_div_mod(k as int, 256);
        vstd::arithmetic::div_mod::lemma_mod_pos_bound(k as int, 256);
        assert(0 <= k / 256 < 0x1_0000_0000) by (nonlinear_arith)
            requires
                k == 256 * (k / 256) + k % 256,
                0 <= k % 256 < 256,
                0 <= k < KEY_LIMIT,
        ;
    }
}

/// Axis readings in fixed-point units, as the platform last reported them.
pub struct InputState {
    axes: HashMap<u64, i32>,
}

impl View for InputState {
    type V = Map<(u32, u8), i32>;

    closed spec fn view(&self) -> Map<(u32, u8), i32> {
        Map::new(
            |k: (u32, u8)| self.axes@.contains_key(axis_key(k.0, k.1)),
            |k: (u32, u8)| self.axes@[axis_key(k.0, k.1)],
        )
    }
}

/// The key of an axis, computed.
fn key_of(device: u32, axis: u8) -> (k: u64)
    ensures
        k == axis_key(device, axis),
{
    proof {
        lemma_axis_key_round_trip(device, axis, 0);
    }
    device as u64 * 256 + axis as u64
}

impl InputState {
    /// Every key in the table stands for a (device, axis) pair.
    #[verifier::type_invariant]
    spec fn keys_in_range(&self) -> bool {
        forall|k: u64| #[trigger] self.axes@.contains_key(k) ==> k < KEY_LIMIT
    }

    /// No axis has reported yet.
    pub fn new() -> (s: InputState)
        ensures
            s@ == Map::<(u32, u8), i32>::empty(),
    {
        let s = InputState { axes: HashMap::new() };
        assert(s@ =~= Map::<(u32, u8), i32>::empty());
        s
    }

    /// Records `value` as the last reading of axis `axis` on device `device`,
    /// replacing any earlier one.
    pub fn set_axis(&mut self, device: u32, axis: u8, value: i32)
        ensures
            final(self)@ == old(self)@.insert((device, axis), value),
    {
        proof {
            use_type_invariant(&*self);
        }
        let k = key_of(device, axis);
        proof {
            lemma_axis_key_round_trip(device, axis, 0);
        }
        let mut axes = self.axes.clone();
        axes.insert(k, value);
        *self = InputState { axes };
        proof {
            assert forall|q: (u32, u8)| axis_key(q.0, q.1) == k implies q == (device, axis) by {
                lemma_axis_key_round_trip(q.0, q.1, 0);
            }
        }
        assert(self@ =~= old(self)@.insert((device, axis), value));
    }

    /// The last reading of axis `axis` on device `device`, if any.
    pub fn axis(&self, device: u32, axis: u8) -> (r: Option<i32>)
        ensures
            r == (if self@.contains_key((device, axis)) {
                Some(self@[(device, axis)])
            } else {
                None::<i32>
            }),
    {
        let k = key_of(device, axis);
        match self.axes.get(&k) {
            Some(v) => Some(*v),
            None => None,
        }
    }

    /// How many axes have a reading.
    pub fn len(&self) -> (r: usize)
        ensures
            self@.dom().finite(),
            r == self@.len(),
    {
        proof {
            use_type_invariant(self);
            let ks = self.axes@.dom();
            let f = |k: u64| key_pair(k);
            assert forall|k1: u64, k2: u64|
                ks.contains(k1) && ks.contains(k2) && #[trigger] f(k1) == #[trigger] f(k2)
                implies k1 == k2 by {
                lemma_axis_key_round_trip(0, 0, k1);
                lemma_axis_key_round_trip(0, 0, k2);
            }
            assert forall|q: (u32, u8)| #[trigger] ks.map(f).contains(q) <==> self@.dom().contains(q) by {
                lemma_axis_key_round_trip(q.0, q.1, 0);
                if ks.map(f).contains(q) {
                    let k = choose|k: u64| ks.contains(k) && f(k) == q;
                    lemma_axis_key_round_trip(0, 0, k);
                } else if self@.dom().contains(q) {
                    assert(ks.contains(axis_key(q.0, q.1)));
                    assert(f(axis_key(q.0, q.1)) == q);
                }
            }
            assert(ks.map(f) =~= self@.dom());
            vstd::set_lib::lemma_map_size(ks, self@.dom(), f);
        }
        self.axes.len()
    }
}

} // verus!
