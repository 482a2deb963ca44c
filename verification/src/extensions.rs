//! The protocol extensions the server offers, where they sit in the opcode,
//! event and error spaces, and the QueryExtension answer for each.
use vstd::prelude::*;

verus! {

pub const X_GENERIC_EVENT_MAJOR_OPCODE: u8 = 128;
pub const X_MIT_SHM_MAJOR_OPCODE: u8 = 130;
pub const X_MIT_SHM_FIRST_EVENT: u8 = 65;
pub const X_MIT_SHM_PUT_IMAGE_MINOR_OPCODE: u8 = 3;
pub const X_INPUT_MAJOR_OPCODE: u8 = 131;
pub const X_INPUT_FIRST_EVENT: u8 = 66;
pub const X_INPUT_FIRST_ERROR: u8 = 129;
pub const X_INPUT_GET_EXTENSION_VERSION_MINOR_OPCODE: u8 = 1;
pub const X_INPUT_QUERY_VERSION_MINOR_OPCODE: u8 = 47;
pub const X_INPUT_QUERY_DEVICE_MINOR_OPCODE: u8 = 48;
pub const X_INPUT_GET_FOCUS_MINOR_OPCODE: u8 = 50;
pub const X_INPUT_GET_PROPERTY_MINOR_OPCODE: u8 = 59;
pub const X_BIG_REQUESTS_MAJOR_OPCODE: u8 = 133;
pub const X_KEYBOARD_MAJOR_OPCODE: u8 = 135;
pub const X_KEYBOARD_FIRST_EVENT: u8 = 85;
pub const X_XFIXES_MAJOR_OPCODE: u8 = 138;
pub const X_RANDR_MAJOR_OPCODE: u8 = 140;
pub const X_RANDR_FIRST_EVENT: u8 = 89;
pub const X_PRESENT_MAJOR_OPCODE: u8 = 148;
pub const X_PRESENT_FIRST_EVENT: u8 = 0;
pub const X_DRI3_MAJOR_OPCODE: u8 = 149;
pub const X_SOPHIA_PRESENT_MAJOR_OPCODE: u8 = 150;

/// Where an extension sits, as QueryExtension reports it.
#[derive(Clone, Copy, Debug, PartialEq, Eq, Structural)]
pub struct XExtensionQueryResult {
    pub present: bool,
    pub major_opcode: u8,
    pub first_event: u8,
    pub first_error: u8,
}

/// `SOPHIA-PRESENT`, as bytes.
pub open spec fn x_sophia_present_extension_name() -> Seq<u8> {
    seq![83u8, 79, 80, 72, 73, 65, 45, 80, 82, 69, 83, 69, 78, 84]
}

/// `MIT-SHM`, as bytes.
pub open spec fn x_mit_shm_extension_name() -> Seq<u8> {
    seq![77u8, 73, 84, 45, 83, 72, 77]
}

/// `DRI3`, as bytes.
pub open spec fn x_dri3_extension_name() -> Seq<u8> {
    seq![68u8, 82, 73, 51]
}

/// `Present`, as bytes.
pub open spec fn x_present_extension_name() -> Seq<u8> {
    seq![80u8, 114, 101, 115, 101, 110, 116]
}

/// `XFIXES`, as bytes.
pub open spec fn x_xfixes_extension_name() -> Seq<u8> {
    seq![88u8, 70, 73, 88, 69, 83]
}

/// `RANDR`, as bytes.
pub open spec fn x_randr_extension_name() -> Seq<u8> {
    seq![82u8, 65, 78, 68, 82]
}

/// `XKEYBOARD`, as bytes.
pub open spec fn x_keyboard_extension_name() -> Seq<u8> {
    seq![88u8, 75, 69, 89, 66, 79, 65, 82, 68]
}

/// `XInputExtension`, as bytes.
pub open spec fn x_input_extension_name() -> Seq<u8> {
    seq![88u8, 73, 110, 112, 117, 116, 69, 120, 116, 101, 110, 115, 105, 111, 110]
}

/// `Generic Event Extension`, as bytes.
pub open spec fn x_generic_event_extension_name() -> Seq<u8> {
    seq![71u8, 101, 110, 101, 114, 105, 99, 32, 69, 118, 101, 110, 116, 32, 69, 120, 116, 101, 110, 115, 105, 111, 110]
}

/// `BIG-REQUESTS`, as bytes.
pub open spec fn x_big_requests_extension_name() -> Seq<u8> {
    seq![66u8, 73, 71, 45, 82, 69, 81, 85, 69, 83, 84, 83]
}

/// The answer to QueryExtension for `name`.
pub open spec fn extension_query(name: Seq<u8>) -> XExtensionQueryResult {
    if name == x_sophia_present_extension_name() {
        XExtensionQueryResult { present: true, major_opcode: X_SOPHIA_PRESENT_MAJOR_OPCODE, first_event: 0, first_error: 0 }
    } else if name == x_mit_shm_extension_name() {
        XExtensionQueryResult { present: true, major_opcode: X_MIT_SHM_MAJOR_OPCODE, first_event: X_MIT_SHM_FIRST_EVENT, first_error: 0 }
    } else if name == x_dri3_extension_name() {
        XExtensionQueryResult { present: true, major_opcode: X_DRI3_MAJOR_OPCODE, first_event: 0, first_error: 0 }
    } else if name == x_present_extension_name() {
        XExtensionQueryResult { present: true, major_opcode: X_PRESENT_MAJOR_OPCODE, first_event: X_PRESENT_FIRST_EVENT, first_error: 0 }
    } else if name == x_xfixes_extension_name() {
        XExtensionQueryResult { present: true, major_opcode: X_XFIXES_MAJOR_OPCODE, first_event: 0, first_error: 0 }
    } else if name == x_randr_extension_name() {
        XExtensionQueryResult { present: true, major_opcode: X_RANDR_MAJOR_OPCODE, first_event: X_RANDR_FIRST_EVENT, first_error: 0 }
    } else if name == x_keyboard_extension_name() {
        XExtensionQueryResult { present: true, major_opcode: X_KEYBOARD_MAJOR_OPCODE, first_event: X_KEYBOARD_FIRST_EVENT, first_error: 0 }
    } else if name == x_input_extension_name() {
        XExtensionQueryResult { present: true, major_opcode: X_INPUT_MAJOR_OPCODE, first_event: X_INPUT_FIRST_EVENT, first_error: X_INPUT_FIRST_ERROR }
    } else if name == x_generic_event_extension_name() {
        XExtensionQueryResult { present: true, major_opcode: X_GENERIC_EVENT_MAJOR_OPCODE, first_event: 0, first_error: 0 }
    } else if name == x_big_requests_extension_name() {
        XExtensionQueryResult { present: true, major_opcode: X_BIG_REQUESTS_MAJOR_OPCODE, first_event: 0, first_error: 0 }
    } else {
        XExtensionQueryResult { present: false, major_opcode: 0, first_event: 0, first_error: 0 }
    }
}

fn bytes_equal(a: &[u8], b: &[u8]) -> (equal: bool)
    ensures
        equal == (a@ == b@),
{
    if a.len() != b.len() {
        return false;
    }
    let mut i: usize = 0;
    while i < a.len()
        invariant
            a@.len() == b@.len(),
            i <= a@.len(),
            forall|j: int| 0 <= j < i ==> a@[j] == b@[j],
        decreases a@.len() - i,
    {
        if a[i] != b[i] {
            return false;
        }
        i = i + 1;
    }
    assert(a@ =~= b@);
    true
}

/// Answers QueryExtension: whether the named extension is offered, and its
/// major opcode and first event and error numbers.
pub fn extension_query_result(name: &[u8]) -> (result: XExtensionQueryResult)
    ensures
        result == extension_query(name@),
{
    let expected: [u8; 14] = [83, 79, 80, 72, 73, 65, 45, 80, 82, 69, 83, 69, 78, 84];
    assert(expected@ =~= x_sophia_present_extension_name());
    if bytes_equal(name, &expected) {
        return XExtensionQueryResult { present: true, major_opcode: X_SOPHIA_PRESENT_MAJOR_OPCODE, first_event: 0, first_error: 0 };
    }
    let expected: [u8; 7] = [77, 73, 84, 45, 83, 72, 77];
    assert(expected@ =~= x_mit_shm_extension_name());
    if bytes_equal(name, &expected) {
        return XExtensionQueryResult { present: true, major_opcode: X_MIT_SHM_MAJOR_OPCODE, first_event: X_MIT_SHM_FIRST_EVENT, first_error: 0 };
    }
    let expected: [u8; 4] = [68, 82, 73, 51];
    assert(expected@ =~= x_dri3_extension_name());
    if bytes_equal(name, &expected) {
        return XExtensionQueryResult { present: true, major_opcode: X_DRI3_MAJOR_OPCODE, first_event: 0, first_error: 0 };
    }
    let expected: [u8; 7] = [80, 114, 101, 115, 101, 110, 116];
    assert(expected@ =~= x_present_extension_name());
    if bytes_equal(name, &expected) {
        return XExtensionQueryResult { present: true, major_opcode: X_PRESENT_MAJOR_OPCODE, first_event: X_PRESENT_FIRST_EVENT, first_error: 0 };
    }
    let expected: [u8; 6] = [88, 70, 73, 88, 69, 83];
    assert(expected@ =~= x_xfixes_extension_name());
    if bytes_equal(name, &expected) {
        return XExtensionQueryResult { present: true, major_opcode: X_XFIXES_MAJOR_OPCODE, first_event: 0, first_error: 0 };
    }
    let expected: [u8; 5] = [82, 65, 78, 68, 82];
    assert(expected@ =~= x_randr_extension_name());
    if bytes_equal(name, &expected) {
        return XExtensionQueryResult { present: true, major_opcode: X_RANDR_MAJOR_OPCODE, first_event: X_RANDR_FIRST_EVENT, first_error: 0 };
    }
    let expected: [u8; 9] = [88, 75, 69, 89, 66, 79, 65, 82, 68];
    assert(expected@ =~= x_keyboard_extension_name());
    if bytes_equal(name, &expected) {
        return XExtensionQueryResult { present: true, major_opcode: X_KEYBOARD_MAJOR_OPCODE, first_event: X_KEYBOARD_FIRST_EVENT, first_error: 0 };
    }
    let expected: [u8; 15] = [88, 73, 110, 112, 117, 116, 69, 120, 116, 101, 110, 115, 105, 111, 110];
    assert(expected@ =~= x_input_extension_name());
    if bytes_equal(name, &expected) {
        return XExtensionQueryResult { present: true, major_opcode: X_INPUT_MAJOR_OPCODE, first_event: X_INPUT_FIRST_EVENT, first_error: X_INPUT_FIRST_ERROR };
    }
    let expected: [u8; 23] = [71, 101, 110, 101, 114, 105, 99, 32, 69, 118, 101, 110, 116, 32, 69, 120, 116, 101, 110, 115, 105, 111, 110];
    assert(expected@ =~= x_generic_event_extension_name());
    if bytes_equal(name, &expected) {
        return XExtensionQueryResult { present: true, major_opcode: X_GENERIC_EVENT_MAJOR_OPCODE, first_event: 0, first_error: 0 };
    }
    let expected: [u8; 12] = [66, 73, 71, 45, 82, 69, 81, 85, 69, 83, 84, 83];
    assert(expected@ =~= x_big_requests_extension_name());
    if bytes_equal(name, &expected) {
        return XExtensionQueryResult { present: true, major_opcode: X_BIG_REQUESTS_MAJOR_OPCODE, first_event: 0, first_error: 0 };
    }
    XExtensionQueryResult { present: false, major_opcode: 0, first_event: 0, first_error: 0 }
}

} // verus!
