//! Command frames: start of text, device type, device id, body, carriage
//! return.

use vstd::prelude::*;
use crate::codec::{int_to_byte, prefix_of, CR, STX};

verus! {

/// Type byte of the motor sub-devices.
pub const TYPE_MOTOR: u8 = 77;

/// Type byte of the input sub-devices.
pub const TYPE_INPUT: u8 = 73;

/// Type byte of the output sub-devices.
pub const TYPE_OUTPUT: u8 = 79;

/// The frame that carries `body` to the sub-device `id` of kind
/// `device_type`.
pub open spec fn frame_of(device_type: u8, id: u8, body: Seq<u8>) -> Seq<u8> {
    prefix_of(device_type, id) + body + seq![13u8]
}

/// Every frame opens with the start-of-text byte, names its sub-device in
/// the next two bytes, carries its body unchanged and closes with a carriage
/// return.
pub proof fn lemma_frame_shape(device_type: u8, id: u8, body: Seq<u8>)
    ensures
        frame_of(device_type, id, body).len() == body.len() + 4,
        frame_of(device_type, id, body)[0] == 2,
        frame_of(device_type, id, body)[1] == device_type,
        frame_of(device_type, id, body)[2] == (id + 48) as u8,
        frame_of(device_type, id, body).last() == 13,
        frame_of(device_type, id, body).subrange(3, 3 + body.len() as int) == body,
        frame_of(device_type, id, body).take(3) == prefix_of(device_type, id),
{
    let f = frame_of(device_type, id, body);
    assert(f.subrange(3, 3 + body.len() as int) =~= body);
    assert(f.take(3) =~= prefix_of(device_type, id));
}

/// Two frames address the same sub-device exactly when their first three
/// bytes agree.
pub proof fn lemma_prefix_identifies_device(
    type_a: u8,
    id_a: u8,
    body_a: Seq<u8>,
    type_b: u8,
    id_b: u8,
    body_b: Seq<u8>,
)
    requires
        id_a <= 9,
        id_b <= 9,
    ensures
        (frame_of(type_a, id_a, body_a).take(3) == frame_of(type_b, id_b, body_b).take(3)) <==> (
        type_a == type_b && id_a == id_b),
{
    lemma_frame_shape(type_a, id_a, body_a);
    lemma_frame_shape(type_b, id_b, body_b);
    let pa = prefix_of(type_a, id_a);
    let pb = prefix_of(type_b, id_b);
    if pa == pb {
        assert(pa[1] == pb[1]);
        assert(pa[2] == pb[2]);
    }
}

/// Builds the frame that carries `body` to the sub-device `id` of kind
/// `device_type`.
pub fn build_frame(device_type: u8, id: u8, body: &[u8]) -> (frame: Vec<u8>)
    requires
        id <= 9,
    ensures
        frame@ == frame_of(device_type, id, body@),
{
    let mut frame: Vec<u8> = Vec::new();
    frame.push(STX);
    frame.push(device_type);
    frame.push(int_to_byte(id));
    let mut i: usize = 0;
    while i < body.len()
        invariant
            i <= body.len(),
            frame@ == prefix_of(device_type, id) + body@.take(i as int),
        decreases body.len() - i,
    {
        frame.push(body[i]);
        assert(body@.take(i + 1) =~= body@.take(i as int).push(body@[i as int]));
        i = i + 1;
    }
    frame.push(CR);
    assert(body@.take(i as int) =~= body@);
    assert(frame@ =~= frame_of(device_type, id, body@));
    frame
}

} // verus!
