//! The lights of the forward pipeline: their places in the light buffer, and
//! the mask that tells a shader which of them reach an object.
//!
//! The buffer holds the active lights only, in the order of the scene. Its
//! first slot is left to the ambient term, so the first active light has the
//! slot 1, the second the slot 2, and so on. A mask names lights by these
//! slots. Every active light is taken to reach every object.

use vstd::prelude::*;
use crate::light::{Coefficient, PointSource};
use crate::{ColorValue, Single};

verus! {

/// The number of slots in the light buffer. The first of them is not used for
/// any light.
pub const MAX_LIGHTS: usize = 256;

/// The number of lights that one mask can name. This is a hard limit: there
/// is no mask for more lights.
pub const MASK_CAPACITY: usize = 16;

/// The slots of the lights that reach an object, eight bits each, four to a
/// lane, the first light in the lowest bits of the first lane. A field of
/// zero names no light.
pub type LightMask = [u32; 4];

/// What the light buffer holds of one light, and where.
#[derive(Clone, Copy, Debug, PartialEq)]
pub struct Light {
    /// The slot of the buffer that the light is written to.
    pub slot: usize,
    /// Homogeneous world position.
    pub position: [Single; 4],
    /// Color.
    pub color: ColorValue,
    /// The coefficients of the attenuation.
    pub attenuation: [Coefficient<Single>; 4],
}

/// The number of active lights.
pub open spec fn active_count(lights: Seq<PointSource<Single>>) -> nat
    decreases lights.len(),
{
    if lights.len() == 0 {
        0
    } else {
        active_count(lights.drop_last()) + (if lights.last().active {
            1nat
        } else {
            0nat
        })
    }
}

/// What is written to the light buffer: the active lights in their order,
/// the first of them to slot 1.
pub open spec fn payload_of(lights: Seq<PointSource<Single>>) -> Seq<Light>
    decreases lights.len(),
{
    if lights.len() == 0 {
        Seq::empty()
    } else {
        let before = payload_of(lights.drop_last());
        let light = lights.last();
        if light.active {
            before.push(
                Light {
                    slot: (before.len() + 1) as usize,
                    position: light.position,
                    color: light.color,
                    attenuation: light.attenuation.coefficients_of(),
                },
            )
        } else {
            before
        }
    }
}

/// What the field `k` of a mask holds when `n` lights are active: the slot
/// of the light, or zero where there is none.
pub open spec fn slot_at(n: int, k: int) -> int {
    if 0 <= k < n {
        k + 1
    } else {
        0
    }
}

/// The value that a field is multiplied with in its lane.
pub open spec fn weight(f: int) -> int {
    if f == 0 {
        1
    } else if f == 1 {
        0x100
    } else if f == 2 {
        0x1_0000
    } else {
        0x100_0000
    }
}

/// A lane of the mask of `n` active lights.
pub open spec fn lane_of(n: int, lane: int) -> int {
    slot_at(n, 4 * lane) + slot_at(n, 4 * lane + 1) * 0x100 + slot_at(n, 4 * lane + 2) * 0x1_0000
        + slot_at(n, 4 * lane + 3) * 0x100_0000
}

/// The mask of `n` active lights.
pub open spec fn mask_of(n: int) -> LightMask {
    [lane_of(n, 0) as u32, lane_of(n, 1) as u32, lane_of(n, 2) as u32, lane_of(n, 3) as u32]
}

/// The field `k` of a mask.
pub open spec fn field(mask: LightMask, k: int) -> int {
    (mask[k / 4] as int / weight(k % 4)) % 0x100
}

/// The first fields of the mask of `n` lights hold the slots 1 to `n`, and
/// all others hold zero.
pub proof fn lemma_fields_hold_slots(n: int, k: int)
    requires
        0 <= n <= MASK_CAPACITY,
        0 <= k < MASK_CAPACITY,
    ensures
        field(mask_of(n), k) == slot_at(n, k),
        field(mask_of(n), k) == (if k < n { k + 1 } else { 0 }),
{
    let lane = k / 4;
    let a = slot_at(n, 4 * lane);
    let b = slot_at(n, 4 * lane + 1);
    let c = slot_at(n, 4 * lane + 2);
    let d = slot_at(n, 4 * lane + 3);
    assert(0 <= a <= 16 && 0 <= b <= 16 && 0 <= c <= 16 && 0 <= d <= 16);
    assert(mask_of(n)[lane] == lane_of(n, lane));
    assert(lane_of(n, lane) == a + b * 0x100 + c * 0x1_0000 + d * 0x100_0000);
}

/// The active lights up to a place, with one more light.
proof fn lemma_one_more_light(lights: Seq<PointSource<Single>>, i: int)
    requires
        0 <= i < lights.len(),
    ensures
        active_count(lights.take(i + 1)) == active_count(lights.take(i)) + (if lights[i].active {
            1nat
        } else {
            0nat
        }),
        payload_of(lights.take(i + 1)) == (if lights[i].active {
            payload_of(lights.take(i)).push(
                Light {
                    slot: (payload_of(lights.take(i)).len() + 1) as usize,
                    position: lights[i].position,
                    color: lights[i].color,
                    attenuation: lights[i].attenuation.coefficients_of(),
                },
            )
        } else {
            payload_of(lights.take(i))
        }),
{
    assert(lights.take(i + 1).drop_last() == lights.take(i));
    assert(lights.take(i + 1).last() == lights[i]);
}

/// There are as many entries in the payload as there are active lights, not
/// more than there are lights, and the entry `j` goes to the slot `j + 1`.
pub proof fn lemma_payload_slots(lights: Seq<PointSource<Single>>)
    requires
        lights.len() <= usize::MAX,
    ensures
        payload_of(lights).len() == active_count(lights),
        active_count(lights) <= lights.len(),
        forall|j: int|
            0 <= j < payload_of(lights).len() ==> (#[trigger] payload_of(lights)[j]).slot == j + 1,
    decreases lights.len(),
{
    if lights.len() > 0 {
        lemma_payload_slots(lights.drop_last());
    }
}

/// An active light is written to the slot that follows the slots of the
/// active lights before it, so the lights keep their order in the buffer.
pub proof fn lemma_light_has_its_slot(lights: Seq<PointSource<Single>>, i: int)
    requires
        lights.len() <= usize::MAX,
        0 <= i < lights.len(),
        lights[i].active,
    ensures
        active_count(lights.take(i)) < payload_of(lights).len(),
        payload_of(lights)[active_count(lights.take(i)) as int] == (Light {
            slot: (active_count(lights.take(i)) + 1) as usize,
            position: lights[i].position,
            color: lights[i].color,
            attenuation: lights[i].attenuation.coefficients_of(),
        }),
    decreases lights.len(),
{
    let before = lights.drop_last();
    lemma_payload_slots(before);
    if i == lights.len() - 1 {
        assert(lights.take(i) == before);
    } else {
        lemma_light_has_its_slot(before, i);
        assert(before.take(i) == lights.take(i));
    }
}

/// A mask names the slots that the lights were written to: its field `k`
/// holds the slot of the entry `k` of the payload.
pub proof fn lemma_mask_names_the_payload(lights: Seq<PointSource<Single>>, k: int)
    requires
        lights.len() <= usize::MAX,
        active_count(lights) <= MASK_CAPACITY,
        0 <= k < active_count(lights),
    ensures
        k < payload_of(lights).len(),
        field(mask_of(active_count(lights) as int), k) == payload_of(lights)[k].slot,
{
    lemma_payload_slots(lights);
    lemma_fields_hold_slots(active_count(lights) as int, k);
}

/// Counts the active lights.
pub fn count_active(lights: &Vec<PointSource<Single>>) -> (n: usize)
    ensures
        n == active_count(lights@),
{
    let mut n: usize = 0;
    let mut i: usize = 0;
    while i < lights.len()
        invariant
            i <= lights@.len(),
            n == active_count(lights@.take(i as int)),
            n <= i,
        decreases lights@.len() - i,
    {
        proof {
            lemma_one_more_light(lights@, i as int);
        }
        if lights[i].active {
            n += 1;
        }
        i += 1;
    }
    assert(lights@.take(lights@.len() as int) == lights@);
    n
}

/// Lays the active lights out for the light buffer: one entry for each
/// active light, in the order of the scene, the first for the slot 1.
pub fn payload(lights: &Vec<PointSource<Single>>) -> (out: Vec<Light>)
    ensures
        out@ == payload_of(lights@),
        out@.len() == active_count(lights@),
        forall|j: int| 0 <= j < out@.len() ==> (#[trigger] out@[j]).slot == j + 1,
{
    let mut out: Vec<Light> = Vec::new();
    let mut i: usize = 0;
    while i < lights.len()
        invariant
            i <= lights@.len(),
            out@ == payload_of(lights@.take(i as int)),
            out@.len() <= i,
        decreases lights@.len() - i,
    {
        proof {
            lemma_one_more_light(lights@, i as int);
        }
        let light = &lights[i];
        if light.active {
            out.push(
                Light {
                    slot: out.len() + 1,
                    position: light.position,
                    color: light.color,
                    attenuation: light.attenuation.coefficients(),
                },
            );
        }
        i += 1;
    }
    proof {
        assert(lights@.take(lights@.len() as int) == lights@);
        lemma_payload_slots(lights@);
        assert forall|j: int| 0 <= j < out@.len() implies (#[trigger] out@[j]).slot == j + 1 by {
            assert(payload_of(lights@)[j].slot == j + 1);
        }
    }
    out
}

/// Puts a slot into a lane above the fields that are in use.
proof fn lemma_field_is_added(x: u32, slot: u32, bit: u32)
    requires
        bit == 0 || bit == 8 || bit == 16 || bit == 24,
        slot < 0x100,
        bit == 0 ==> x == 0,
        bit == 8 ==> x < 0x100,
        bit == 16 ==> x < 0x1_0000,
        bit == 24 ==> x < 0x100_0000,
    ensures
        bit == 0 ==> x | (slot << bit) == slot,
        bit == 8 ==> x | (slot << bit) == x + slot * 0x100,
        bit == 16 ==> x | (slot << bit) == x + slot * 0x1_0000,
        bit == 24 ==> x | (slot << bit) == x + slot * 0x100_0000,
{
    assert(bit == 0 && x == 0 ==> x | (slot << bit) == slot) by (bit_vector);
    assert(bit == 8 && x < 0x100 && slot < 0x100 ==> x | (slot << bit) == x + slot * 0x100)
        by (bit_vector);
    assert(bit == 16 && x < 0x1_0000 && slot < 0x100 ==> x | (slot << bit) == x + slot * 0x1_0000)
        by (bit_vector);
    assert(bit == 24 && x < 0x100_0000 && slot < 0x100 ==> x | (slot << bit) == x + slot
        * 0x100_0000) by (bit_vector);
}

/// Packs the slots of the active lights into a mask. There is no mask for
/// more lights than a mask can name.
pub fn light_mask(lights: &Vec<PointSource<Single>>) -> (packed: Option<LightMask>)
    ensures
        packed is Some <==> active_count(lights@) <= MASK_CAPACITY,
        packed matches Some(mask) ==> mask == mask_of(active_count(lights@) as int),
{
    let mut mask: LightMask = [0; 4];
    let mut bit: u32 = 0;
    let mut element: usize = 0;
    let mut slot: u32 = 0;
    let mut i: usize = 0;
    while i < lights.len()
        invariant
            i <= lights@.len(),
            slot == active_count(lights@.take(i as int)),
            slot <= MASK_CAPACITY,
            element == slot / 4,
            bit == 8 * (slot % 4),
            forall|lane: int| 0 <= lane < 4 ==> #[trigger] mask[lane] == lane_of(slot as int, lane),
        decreases lights@.len() - i,
    {
        proof {
            lemma_one_more_light(lights@, i as int);
        }
        if lights[i].active {
            if element >= 4 {
                proof {
                    lemma_more_lights_follow(lights@, i + 1);
                }
                return None;
            }
            let ghost n = slot as int;
            let ghost lane_before = mask[element as int];
            slot += 1;
            proof {
                lemma_field_is_added(lane_before, slot, bit);
                assert(lane_of(n + 1, element as int) == lane_of(n, element as int) + (n + 1)
                    * weight(n % 4));
            }
            mask[element] = mask[element] | (slot << bit);
            bit += 8;
            if bit == 32 {
                bit = 0;
                element += 1;
            }
            proof {
                assert forall|lane: int| 0 <= lane < 4 implies #[trigger] mask[lane] == lane_of(
                    n + 1,
                    lane,
                ) by {
                    if lane != n / 4 {
                        assert(lane_of(n + 1, lane) == lane_of(n, lane));
                    }
                }
            }
        }
        i += 1;
    }
    proof {
        assert(lights@.take(lights@.len() as int) == lights@);
        assert(mask =~= mask_of(slot as int));
    }
    Some(mask)
}

/// A longer list of lights has no fewer active lights.
proof fn lemma_more_lights_follow(lights: Seq<PointSource<Single>>, i: int)
    requires
        0 <= i <= lights.len(),
    ensures
        active_count(lights.take(i)) <= active_count(lights),
    decreases lights.len() - i,
{
    if i < lights.len() {
        lemma_one_more_light(lights, i);
        lemma_more_lights_follow(lights, i + 1);
    } else {
        assert(lights.take(i) == lights);
    }
}

} // verus!
