use vstd::prelude::*;

verus! {

/// A byte that a connected client may send to an application: line feed,
/// carriage return, escape, or a printable ASCII character (space to `~`).
pub open spec fn allowed_byte(b: u8) -> bool {
    b == 0x0a || b == 0x0d || b == 0x1b || (0x20 <= b && b <= 0x7e)
}

/// Input that may be handed to an application: every byte is allowed.
pub open spec fn allowed_input(data: Seq<u8>) -> bool {
    forall|i: int| 0 <= i < data.len() ==> #[trigger] allowed_byte(data[i])
}

/// Whether one received byte may reach an application.
pub fn is_allowed_byte(b: u8) -> (r: bool)
    ensures
        r == allowed_byte(b),
{
    b == 0x0a || b == 0x0d || b == 0x1b || (0x20 <= b && b <= 0x7e)
}

/// Whether received input may reach an application: true exactly when every
/// byte is allowed (so the empty input is allowed).
pub fn is_valid_input(data: &[u8]) -> (r: bool)
    ensures
        r == allowed_input(data@),
{
    let mut i: usize = 0;
    while i < data.len()
        invariant
            i <= data@.len(),
            forall|j: int| 0 <= j < i ==> #[trigger] allowed_byte(data@[j]),
        decreases data@.len() - i,
    {
        if !is_allowed_byte(data[i]) {
            assert(!allowed_byte(data@[i as int]));
            return false;
        }
        i = i + 1;
    }
    true
}

/// Input is screened byte by byte, with no regard to neighbours: a
/// concatenation is allowed exactly when both parts are.
pub proof fn input_is_checked_byte_by_byte(a: Seq<u8>, b: Seq<u8>)
    ensures
        allowed_input(a + b) == (allowed_input(a) && allowed_input(b)),
{
    if allowed_input(a) && allowed_input(b) {
        assert forall|i: int| 0 <= i < (a + b).len() implies #[trigger] allowed_byte((a + b)[i]) by {
            if i < a.len() {
                assert((a + b)[i] == a[i]);
            } else {
                assert((a + b)[i] == b[i - a.len()]);
            }
        }
    }
    if allowed_input(a + b) {
        assert forall|i: int| 0 <= i < a.len() implies #[trigger] allowed_byte(a[i]) by {
            assert((a + b)[i] == a[i]);
        }
        assert forall|i: int| 0 <= i < b.len() implies #[trigger] allowed_byte(b[i]) by {
            assert((a + b)[a.len() + i] == b[i]);
        }
    }
}

/// A single byte is let through exactly when it is a line feed, a carriage
/// return, an escape, or printable ASCII; the empty input is let through.
pub proof fn single_byte_input(b: u8)
    ensures
        allowed_input(seq![b]) == (b == 0x0a || b == 0x0d || b == 0x1b || (0x20 <= b && b <= 0x7e)),
        allowed_input(Seq::<u8>::empty()),
{
    if allowed_input(seq![b]) {
        assert(allowed_byte(seq![b][0]));
    }
}

} // verus!
