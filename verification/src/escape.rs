use vstd::prelude::*;

verus! {

/// `ESC [ ? 1049 h`: switch the remote terminal to its alternate screen.
pub open spec fn spec_enter_alt_screen() -> Seq<u8> {
    seq![0x1bu8, 0x5bu8, 0x3fu8, 0x31u8, 0x30u8, 0x34u8, 0x39u8, 0x68u8]
}

/// `ESC [ ? 1049 l`: leave the alternate screen.
pub open spec fn spec_exit_alt_screen() -> Seq<u8> {
    seq![0x1bu8, 0x5bu8, 0x3fu8, 0x31u8, 0x30u8, 0x34u8, 0x39u8, 0x6cu8]
}

/// `ESC [ ? 25 l`: hide the cursor.
pub open spec fn spec_hide_cursor() -> Seq<u8> {
    seq![0x1bu8, 0x5bu8, 0x3fu8, 0x32u8, 0x35u8, 0x6cu8]
}

/// `ESC [ ? 25 h`: show the cursor.
pub open spec fn spec_show_cursor() -> Seq<u8> {
    seq![0x1bu8, 0x5bu8, 0x3fu8, 0x32u8, 0x35u8, 0x68u8]
}

/// `ESC [ 2 J`: clear the whole screen.
pub open spec fn spec_clear_all() -> Seq<u8> {
    seq![0x1bu8, 0x5bu8, 0x32u8, 0x4au8]
}

pub fn enter_alt_screen() -> (r: Vec<u8>)
    ensures
        r@ == spec_enter_alt_screen(),
{
    let r: Vec<u8> = vec![0x1b, 0x5b, 0x3f, 0x31, 0x30, 0x34, 0x39, 0x68];
    assert(r@ =~= spec_enter_alt_screen());
    r
}

pub fn exit_alt_screen() -> (r: Vec<u8>)
    ensures
        r@ == spec_exit_alt_screen(),
{
    let r: Vec<u8> = vec![0x1b, 0x5b, 0x3f, 0x31, 0x30, 0x34, 0x39, 0x6c];
    assert(r@ =~= spec_exit_alt_screen());
    r
}

pub fn hide_cursor() -> (r: Vec<u8>)
    ensures
        r@ == spec_hide_cursor(),
{
    let r: Vec<u8> = vec![0x1b, 0x5b, 0x3f, 0x32, 0x35, 0x6c];
    assert(r@ =~= spec_hide_cursor());
    r
}

pub fn show_cursor() -> (r: Vec<u8>)
    ensures
        r@ == spec_show_cursor(),
{
    let r: Vec<u8> = vec![0x1b, 0x5b, 0x3f, 0x32, 0x35, 0x68];
    assert(r@ =~= spec_show_cursor());
    r
}

pub fn clear_all() -> (r: Vec<u8>)
    ensures
        r@ == spec_clear_all(),
{
    let r: Vec<u8> = vec![0x1b, 0x5b, 0x32, 0x4a];
    assert(r@ =~= spec_clear_all());
    r
}

} // verus!
