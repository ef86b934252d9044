use vstd::prelude::*;

verus! {

/// The "Wavebeam" palette: the 32-bit BGRA pixel (alpha 0xFF) for each of
/// the 64 colours that a palette RAM byte can name.
pub open spec fn wavebeam(i: int) -> u32 {
    if i == 0 {
        0xff6b6b6b
    } else if i == 1 {
        0xff001b87
    } else if i == 2 {
        0xff21009a
    } else if i == 3 {
        0xff40008c
    } else if i == 4 {
        0xff600067
    } else if i == 5 {
        0xff64001e
    } else if i == 6 {
        0xff590800
    } else if i == 7 {
        0xff461600
    } else if i == 8 {
        0xff263600
    } else if i == 9 {
        0xff004500
    } else if i == 10 {
        0xff004708
    } else if i == 11 {
        0xff00421d
    } else if i == 12 {
        0xff003659
    } else if i == 13 {
        0xff000000
    } else if i == 14 {
        0xff000000
    } else if i == 15 {
        0xff000000
    } else if i == 16 {
        0xffb4b4b4
    } else if i == 17 {
        0xff1555ce
    } else if i == 18 {
        0xff4337ea
    } else if i == 19 {
        0xff7124da
    } else if i == 20 {
        0xff9c1ab6
    } else if i == 21 {
        0xffaa1164
    } else if i == 22 {
        0xffa82e00
    } else if i == 23 {
        0xff874b00
    } else if i == 24 {
        0xff666b00
    } else if i == 25 {
        0xff218300
    } else if i == 26 {
        0xff008a00
    } else if i == 27 {
        0xff008144
    } else if i == 28 {
        0xff007691
    } else if i == 29 {
        0xff000000
    } else if i == 30 {
        0xff000000
    } else if i == 31 {
        0xff000000
    } else if i == 32 {
        0xffffffff
    } else if i == 33 {
        0xff63afff
    } else if i == 34 {
        0xff8296ff
    } else if i == 35 {
        0xffc07dfe
    } else if i == 36 {
        0xffe977ff
    } else if i == 37 {
        0xfff572cd
    } else if i == 38 {
        0xfff4886b
    } else if i == 39 {
        0xffdda029
    } else if i == 40 {
        0xffbdbd0a
    } else if i == 41 {
        0xff89d20e
    } else if i == 42 {
        0xff5cde3e
    } else if i == 43 {
        0xff4bd886
    } else if i == 44 {
        0xff4dcfd2
    } else if i == 45 {
        0xff505050
    } else if i == 46 {
        0xff000000
    } else if i == 47 {
        0xff000000
    } else if i == 48 {
        0xffffffff
    } else if i == 49 {
        0xffbee1ff
    } else if i == 50 {
        0xffd4d4ff
    } else if i == 51 {
        0xffe3caff
    } else if i == 52 {
        0xfff0c9ff
    } else if i == 53 {
        0xffffc6e3
    } else if i == 54 {
        0xffffcec9
    } else if i == 55 {
        0xfff4dcaf
    } else if i == 56 {
        0xffebe5a1
    } else if i == 57 {
        0xffd2efa2
    } else if i == 58 {
        0xffbef4b5
    } else if i == 59 {
        0xffb8f1d0
    } else if i == 60 {
        0xffb8edf1
    } else if i == 61 {
        0xffbdbdbd
    } else if i == 62 {
        0xff000000
    } else {
        0xff000000
    }
}

/// The pixel for a palette RAM byte; only its low 6 bits count.
pub fn get_color_from_index(index: u8) -> (r: u32)
    ensures
        r == wavebeam((index % 64) as int),
{
    let i = index % 64;
    if i == 0 {
        0xff6b6b6b
    } else if i == 1 {
        0xff001b87
    } else if i == 2 {
        0xff21009a
    } else if i == 3 {
        0xff40008c
    } else if i == 4 {
        0xff600067
    } else if i == 5 {
        0xff64001e
    } else if i == 6 {
        0xff590800
    } else if i == 7 {
        0xff461600
    } else if i == 8 {
        0xff263600
    } else if i == 9 {
        0xff004500
    } else if i == 10 {
        0xff004708
    } else if i == 11 {
        0xff00421d
    } else if i == 12 {
        0xff003659
    } else if i == 13 {
        0xff000000
    } else if i == 14 {
        0xff000000
    } else if i == 15 {
        0xff000000
    } else if i == 16 {
        0xffb4b4b4
    } else if i == 17 {
        0xff1555ce
    } else if i == 18 {
        0xff4337ea
    } else if i == 19 {
        0xff7124da
    } else if i == 20 {
        0xff9c1ab6
    } else if i == 21 {
        0xffaa1164
    } else if i == 22 {
        0xffa82e00
    } else if i == 23 {
        0xff874b00
    } else if i == 24 {
        0xff666b00
    } else if i == 25 {
        0xff218300
    } else if i == 26 {
        0xff008a00
    } else if i == 27 {
        0xff008144
    } else if i == 28 {
        0xff007691
    } else if i == 29 {
        0xff000000
    } else if i == 30 {
        0xff000000
    } else if i == 31 {
        0xff000000
    } else if i == 32 {
        0xffffffff
    } else if i == 33 {
        0xff63afff
    } else if i == 34 {
        0xff8296ff
    } else if i == 35 {
        0xffc07dfe
    } else if i == 36 {
        0xffe977ff
    } else if i == 37 {
        0xfff572cd
    } else if i == 38 {
        0xfff4886b
    } else if i == 39 {
        0xffdda029
    } else if i == 40 {
        0xffbdbd0a
    } else if i == 41 {
        0xff89d20e
    } else if i == 42 {
        0xff5cde3e
    } else if i == 43 {
        0xff4bd886
    } else if i == 44 {
        0xff4dcfd2
    } else if i == 45 {
        0xff505050
    } else if i == 46 {
        0xff000000
    } else if i == 47 {
        0xff000000
    } else if i == 48 {
        0xffffffff
    } else if i == 49 {
        0xffbee1ff
    } else if i == 50 {
        0xffd4d4ff
    } else if i == 51 {
        0xffe3caff
    } else if i == 52 {
        0xfff0c9ff
    } else if i == 53 {
        0xffffc6e3
    } else if i == 54 {
        0xffffcec9
    } else if i == 55 {
        0xfff4dcaf
    } else if i == 56 {
        0xffebe5a1
    } else if i == 57 {
        0xffd2efa2
    } else if i == 58 {
        0xffbef4b5
    } else if i == 59 {
        0xffb8f1d0
    } else if i == 60 {
        0xffb8edf1
    } else if i == 61 {
        0xffbdbdbd
    } else if i == 62 {
        0xff000000
    } else {
        0xff000000
    }
}

} // verus!
