use vstd::prelude::*;

verus! {

/// Number of entries in the fixed pseudo-random table.
pub const RANDOM_TABLE_LEN: usize = 60;

/// The fixed table of 64-bit constants backing [`PseudoRandomSource`].
///
/// The table, together with the wrap rule of [`PseudoRandomSource::next`],
/// is part of the public contract: bit-exact reproducibility of simulated
/// heartbeats depends on these exact values.
pub open spec fn table_at(i: int) -> u64 {
    if i == 0 {
        4082856971599685620
    } else if i == 1 {
        263328434869347407
    } else if i == 2 {
        7576667847654208308
    } else if i == 3 {
        12684192323921937922
    } else if i == 4 {
        16181197760313166074
    } else if i == 5 {
        4993000259016286523
    } else if i == 6 {
        7777360851611472270
    } else if i == 7 {
        12684858740337089069
    } else if i == 8 {
        13792758530809556226
    } else if i == 9 {
        9705484450158675180
    } else if i == 10 {
        2356434852560640881
    } else if i == 11 {
        12991886417691552848
    } else if i == 12 {
        14262153250304362608
    } else if i == 13 {
        9721139077091098879
    } else if i == 14 {
        5340259883797775994
    } else if i == 15 {
        1910912361441097101
    } else if i == 16 {
        551951547015110708
    } else if i == 17 {
        13388081104731861589
    } else if i == 18 {
        14561835204930253753
    } else if i == 19 {
        1145348537966955514
    } else if i == 20 {
        4635642057608043709
    } else if i == 21 {
        247279847734376319
    } else if i == 22 {
        14475454185974473037
    } else if i == 23 {
        5356791289287893950
    } else if i == 24 {
        5394722332071153439
    } else if i == 25 {
        2763708184518272260
    } else if i == 26 {
        4052692358703354570
    } else if i == 27 {
        662762972601170563
    } else if i == 28 {
        15525522150426148273
    } else if i == 29 {
        8713541385896213327
    } else if i == 30 {
        7744339156133814078
    } else if i == 31 {
        1179486564352551839
    } else if i == 32 {
        8186741526410188083
    } else if i == 33 {
        17813459038272261655
    } else if i == 34 {
        6703836692820609876
    } else if i == 35 {
        11887323209793110945
    } else if i == 36 {
        14743971615791178849
    } else if i == 37 {
        7105582857490582895
    } else if i == 38 {
        4947742274484715779
    } else if i == 39 {
        16548987461410137580
    } else if i == 40 {
        1906977537585733016
    } else if i == 41 {
        3491468108978074261
    } else if i == 42 {
        7646978571229541228
    } else if i == 43 {
        14368653334384094176
    } else if i == 44 {
        12561872433439601078
    } else if i == 45 {
        17084379079299463301
    } else if i == 46 {
        9671403567356947947
    } else if i == 47 {
        9780812539195315877
    } else if i == 48 {
        1911346566344532911
    } else if i == 49 {
        8369580830371596415
    } else if i == 50 {
        14706596080775791548
    } else if i == 51 {
        15189009629689132555
    } else if i == 52 {
        9125462606164200898
    } else if i == 53 {
        12481310361510826705
    } else if i == 54 {
        542518502924445949
    } else if i == 55 {
        14147427910115416641
    } else if i == 56 {
        12663770586276171547
    } else if i == 57 {
        10758265674907009008
    } else if i == 58 {
        17891922577438267520
    } else if i == 59 {
        14061335016435054781
    } else {
        0
    }
}

/// Returns entry `i` of the fixed pseudo-random table.
pub fn table_value(i: usize) -> (r: u64)
    requires
        i < RANDOM_TABLE_LEN,
    ensures
        r == table_at(i as int),
{
    match i {
        0 => 4082856971599685620,
        1 => 263328434869347407,
        2 => 7576667847654208308,
        3 => 12684192323921937922,
        4 => 16181197760313166074,
        5 => 4993000259016286523,
        6 => 7777360851611472270,
        7 => 12684858740337089069,
        8 => 13792758530809556226,
        9 => 9705484450158675180,
        10 => 2356434852560640881,
        11 => 12991886417691552848,
        12 => 14262153250304362608,
        13 => 9721139077091098879,
        14 => 5340259883797775994,
        15 => 1910912361441097101,
        16 => 551951547015110708,
        17 => 13388081104731861589,
        18 => 14561835204930253753,
        19 => 1145348537966955514,
        20 => 4635642057608043709,
        21 => 247279847734376319,
        22 => 14475454185974473037,
        23 => 5356791289287893950,
        24 => 5394722332071153439,
        25 => 2763708184518272260,
        26 => 4052692358703354570,
        27 => 662762972601170563,
        28 => 15525522150426148273,
        29 => 8713541385896213327,
        30 => 7744339156133814078,
        31 => 1179486564352551839,
        32 => 8186741526410188083,
        33 => 17813459038272261655,
        34 => 6703836692820609876,
        35 => 11887323209793110945,
        36 => 14743971615791178849,
        37 => 7105582857490582895,
        38 => 4947742274484715779,
        39 => 16548987461410137580,
        40 => 1906977537585733016,
        41 => 3491468108978074261,
        42 => 7646978571229541228,
        43 => 14368653334384094176,
        44 => 12561872433439601078,
        45 => 17084379079299463301,
        46 => 9671403567356947947,
        47 => 9780812539195315877,
        48 => 1911346566344532911,
        49 => 8369580830371596415,
        50 => 14706596080775791548,
        51 => 15189009629689132555,
        52 => 9125462606164200898,
        53 => 12481310361510826705,
        54 => 542518502924445949,
        55 => 14147427910115416641,
        56 => 12663770586276171547,
        57 => 10758265674907009008,
        58 => 17891922577438267520,
        59 => 14061335016435054781,
        _ => 0,
    }
}

/// The table index actually read for a stored cursor value: a cursor at or
/// past the end of the table wraps to the start before it is used.
pub open spec fn wrapped_index(cursor: int) -> int {
    if cursor >= RANDOM_TABLE_LEN {
        0
    } else {
        cursor
    }
}

/// The value a draw at stored cursor `cursor` yields.
pub open spec fn draw_at(cursor: int) -> u64 {
    table_at(wrapped_index(cursor))
}

/// The stored cursor value after a draw at stored cursor `cursor`.
pub open spec fn cursor_after(cursor: int) -> int {
    wrapped_index(cursor) + 1
}

/// A deterministic, table-backed stream of 64-bit integers.
///
/// The source makes simulated heartbeats reproducible yet non-trivial: it
/// walks the fixed table in order and wraps to the start once the cursor
/// reaches the table length. It is not suitable for anything but
/// reproducible test stimulus.
pub struct PseudoRandomSource {
    cursor: usize,
}

impl PseudoRandomSource {
    /// The current cursor into the fixed table.
    pub closed spec fn cursor(self) -> int {
        self.cursor as int
    }

    /// A fresh source, positioned at the start of the table.
    pub fn new() -> (src: PseudoRandomSource)
        ensures
            src.cursor() == 0,
    {
        PseudoRandomSource { cursor: 0 }
    }

    /// Returns the table entry at the (wrapped) cursor and advances the
    /// cursor by one.
    pub fn next(&mut self) -> (r: u64)
        ensures
            r == draw_at(old(self).cursor()),
            final(self).cursor() == cursor_after(old(self).cursor()),
    {
        let i: usize = if self.cursor >= RANDOM_TABLE_LEN {
            0
        } else {
            self.cursor
        };
        let r = table_value(i);
        self.cursor = i + 1;
        r
    }
}

} // verus!
