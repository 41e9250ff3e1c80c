//! The fee rate matrix: the rate charged for a given use of the buffer and a
//! given demand on what is available, both in steps of 10%.
//!
//! A rate is the inner value of an 18-decimal `FixedU128`, so that
//! `RATE_ACCURACY` stands for a rate of one.

use vstd::prelude::*;
use crate::fractions::{fixed_from_rational, rational_rate, RATE_ACCURACY};

verus! {

/// Fee rates when 0% of the buffer is used, by demand in steps of 10%.
pub open spec fn fee_rate_row_0(col: int) -> int {
    if col == 0 {
        0
    } else if col == 1 {
        rational_rate(231487, 100000000)
    } else if col == 2 {
        rational_rate(526013, 100000000)
    } else if col == 3 {
        rational_rate(106148, 10000000)
    } else if col == 4 {
        rational_rate(243221, 10000000)
    } else if col == 5 {
        rational_rate(597041, 10000000)
    } else if col == 6 {
        rational_rate(126422, 1000000)
    } else if col == 7 {
        rational_rate(214815, 1000000)
    } else if col == 8 {
        rational_rate(311560, 1000000)
    } else if col == 9 {
        rational_rate(410715, 1000000)
    } else {
        rational_rate(510500, 1000000)
    }
}

/// Fee rates when 10% of the buffer is used, by demand in steps of 10%.
pub open spec fn fee_rate_row_1(col: int) -> int {
    if col == 0 {
        0
    } else if col == 1 {
        rational_rate(260999, 100000000)
    } else if col == 2 {
        rational_rate(584962, 100000000)
    } else if col == 3 {
        rational_rate(114942, 10000000)
    } else if col == 4 {
        rational_rate(254703, 10000000)
    } else if col == 5 {
        rational_rate(610531, 10000000)
    } else if col == 6 {
        rational_rate(127866, 1000000)
    } else if col == 7 {
        rational_rate(216285, 1000000)
    } else if col == 8 {
        rational_rate(313035, 1000000)
    } else if col == 9 {
        rational_rate(412191, 1000000)
    } else {
        rational_rate(511976, 1000000)
    }
}

/// Fee rates when 20% of the buffer is used, by demand in steps of 10%.
pub open spec fn fee_rate_row_2(col: int) -> int {
    if col == 0 {
        0
    } else if col == 1 {
        rational_rate(376267, 100000000)
    } else if col == 2 {
        rational_rate(815202, 100000000)
    } else if col == 3 {
        rational_rate(149288, 10000000)
    } else if col == 4 {
        rational_rate(299546, 10000000)
    } else if col == 5 {
        rational_rate(663214, 10000000)
    } else if col == 6 {
        rational_rate(133503, 1000000)
    } else if col == 7 {
        rational_rate(222025, 1000000)
    } else if col == 8 {
        rational_rate(318797, 1000000)
    } else if col == 9 {
        rational_rate(417955, 1000000)
    } else {
        rational_rate(517741, 1000000)
    }
}

/// Fee rates when 30% of the buffer is used, by demand in steps of 10%.
pub open spec fn fee_rate_row_3(col: int) -> int {
    if col == 0 {
        0
    } else if col == 1 {
        rational_rate(807626, 100000000)
    } else if col == 2 {
        rational_rate(167679, 10000000)
    } else if col == 3 {
        rational_rate(277809, 10000000)
    } else if col == 4 {
        rational_rate(467319, 10000000)
    } else if col == 5 {
        rational_rate(860304, 10000000)
    } else if col == 6 {
        rational_rate(154595, 1000000)
    } else if col == 7 {
        rational_rate(243507, 1000000)
    } else if col == 8 {
        rational_rate(340357, 1000000)
    } else if col == 9 {
        rational_rate(439528, 1000000)
    } else {
        rational_rate(539315, 1000000)
    }
}

/// Fee rates when 40% of the buffer is used, by demand in steps of 10%.
pub open spec fn fee_rate_row_4(col: int) -> int {
    if col == 0 {
        0
    } else if col == 1 {
        rational_rate(219503, 10000000)
    } else if col == 2 {
        rational_rate(444770, 10000000)
    } else if col == 3 {
        rational_rate(691029, 10000000)
    } else if col == 4 {
        rational_rate(100646, 1000000)
    } else if col == 5 {
        rational_rate(149348, 1000000)
    } else if col == 6 {
        rational_rate(222388, 1000000)
    } else if col == 7 {
        rational_rate(312586, 1000000)
    } else if col == 8 {
        rational_rate(409701, 1000000)
    } else if col == 9 {
        rational_rate(508916, 1000000)
    } else {
        rational_rate(608707, 1000000)
    }
}

/// Fee rates when 50% of the buffer is used, by demand in steps of 10%.
pub open spec fn fee_rate_row_5(col: int) -> int {
    if col == 0 {
        0
    } else if col == 1 {
        rational_rate(511974, 10000000)
    } else if col == 2 {
        rational_rate(102871, 1000000)
    } else if col == 3 {
        rational_rate(156110, 1000000)
    } else if col == 4 {
        rational_rate(213989, 1000000)
    } else if col == 5 {
        rational_rate(282343, 1000000)
    } else if col == 6 {
        rational_rate(364989, 1000000)
    } else if col == 7 {
        rational_rate(458110, 1000000)
    } else if col == 8 {
        rational_rate(555871, 1000000)
    } else if col == 9 {
        rational_rate(655197, 1000000)
    } else {
        rational_rate(755000, 1000000)
    }
}

/// Fee rates when 60% of the buffer is used, by demand in steps of 10%.
pub open spec fn fee_rate_row_6(col: int) -> int {
    if col == 0 {
        0
    } else if col == 1 {
        rational_rate(804354, 10000000)
    } else if col == 2 {
        rational_rate(161193, 1000000)
    } else if col == 3 {
        rational_rate(242816, 1000000)
    } else if col == 4 {
        rational_rate(326520, 1000000)
    } else if col == 5 {
        rational_rate(414156, 1000000)
    } else if col == 6 {
        rational_rate(506779, 1000000)
    } else if col == 7 {
        rational_rate(603334, 1000000)
    } else if col == 8 {
        rational_rate(701969, 1000000)
    } else if col == 9 {
        rational_rate(801470, 1000000)
    } else {
        rational_rate(901293, 1000000)
    }
}

/// Fee rates when 70% of the buffer is used, by demand in steps of 10%.
pub open spec fn fee_rate_row_7(col: int) -> int {
    if col == 0 {
        0
    } else if col == 1 {
        rational_rate(942895, 10000000)
    } else if col == 2 {
        rational_rate(188758, 1000000)
    } else if col == 3 {
        rational_rate(283590, 1000000)
    } else if col == 4 {
        rational_rate(379083, 1000000)
    } else if col == 5 {
        rational_rate(475573, 1000000)
    } else if col == 6 {
        rational_rate(573220, 1000000)
    } else if col == 7 {
        rational_rate(671864, 1000000)
    } else if col == 8 {
        rational_rate(771169, 1000000)
    } else if col == 9 {
        rational_rate(870838, 1000000)
    } else {
        rational_rate(970685, 1000000)
    }
}

/// Fee rates when 80% of the buffer is used, by demand in steps of 10%.
pub open spec fn fee_rate_row_8(col: int) -> int {
    if col == 0 {
        0
    } else if col == 1 {
        rational_rate(985811, 10000000)
    } else if col == 2 {
        rational_rate(197241, 1000000)
    } else if col == 3 {
        rational_rate(296017, 1000000)
    } else if col == 4 {
        rational_rate(394949, 1000000)
    } else if col == 5 {
        rational_rate(494073, 1000000)
    } else if col == 6 {
        rational_rate(593401, 1000000)
    } else if col == 7 {
        rational_rate(692920, 1000000)
    } else if col == 8 {
        rational_rate(792596, 1000000)
    } else if col == 9 {
        rational_rate(892388, 1000000)
    } else {
        rational_rate(992259, 1000000)
    }
}

/// Fee rates when 90% of the buffer is used, by demand in steps of 10%.
pub open spec fn fee_rate_row_9(col: int) -> int {
    if col == 0 {
        0
    } else if col == 1 {
        rational_rate(997132, 10000000)
    } else if col == 2 {
        rational_rate(199444, 1000000)
    } else if col == 3 {
        rational_rate(299194, 1000000)
    } else if col == 4 {
        rational_rate(398965, 1000000)
    } else if col == 5 {
        rational_rate(498757, 1000000)
    } else if col == 6 {
        rational_rate(598570, 1000000)
    } else if col == 7 {
        rational_rate(698404, 1000000)
    } else if col == 8 {
        rational_rate(798259, 1000000)
    } else if col == 9 {
        rational_rate(898132, 1000000)
    } else {
        rational_rate(998024, 1000000)
    }
}

/// Fee rates when 100% of the buffer is used, by demand in steps of 10%.
pub open spec fn fee_rate_row_10(col: int) -> int {
    if col == 0 {
        0
    } else if col == 1 {
        RATE_ACCURACY as int
    } else if col == 2 {
        RATE_ACCURACY as int
    } else if col == 3 {
        RATE_ACCURACY as int
    } else if col == 4 {
        RATE_ACCURACY as int
    } else if col == 5 {
        RATE_ACCURACY as int
    } else if col == 6 {
        RATE_ACCURACY as int
    } else if col == 7 {
        RATE_ACCURACY as int
    } else if col == 8 {
        RATE_ACCURACY as int
    } else if col == 9 {
        RATE_ACCURACY as int
    } else {
        RATE_ACCURACY as int
    }
}

/// The rate at row `row` (used buffer, `10 * row` percent) and column `col`
/// (demand in available, `10 * col` percent).
pub open spec fn fee_rate(row: int, col: int) -> int {
    if row == 0 {
        fee_rate_row_0(col)
    } else if row == 1 {
        fee_rate_row_1(col)
    } else if row == 2 {
        fee_rate_row_2(col)
    } else if row == 3 {
        fee_rate_row_3(col)
    } else if row == 4 {
        fee_rate_row_4(col)
    } else if row == 5 {
        fee_rate_row_5(col)
    } else if row == 6 {
        fee_rate_row_6(col)
    } else if row == 7 {
        fee_rate_row_7(col)
    } else if row == 8 {
        fee_rate_row_8(col)
    } else if row == 9 {
        fee_rate_row_9(col)
    } else {
        fee_rate_row_10(col)
    }
}

fn fee_rates_at_row_0() -> (r: Vec<u128>)
    ensures
        r.len() == 11,
        forall|col: int| 0 <= col < 11 ==> r[col] == fee_rate(0, col),
{
    let r: Vec<u128> = vec![
        0,
        fixed_from_rational(231487, 100000000),
        fixed_from_rational(526013, 100000000),
        fixed_from_rational(106148, 10000000),
        fixed_from_rational(243221, 10000000),
        fixed_from_rational(597041, 10000000),
        fixed_from_rational(126422, 1000000),
        fixed_from_rational(214815, 1000000),
        fixed_from_rational(311560, 1000000),
        fixed_from_rational(410715, 1000000),
        fixed_from_rational(510500, 1000000),
    ];
    assert forall|col: int| 0 <= col < 11 implies r[col] == fee_rate(0, col) by {
        assert(col == 0 || col == 1 || col == 2 || col == 3 || col == 4 || col == 5 || col == 6
            || col == 7 || col == 8 || col == 9 || col == 10);
    }
    r
}

fn fee_rates_at_row_1() -> (r: Vec<u128>)
    ensures
        r.len() == 11,
        forall|col: int| 0 <= col < 11 ==> r[col] == fee_rate(1, col),
{
    let r: Vec<u128> = vec![
        0,
        fixed_from_rational(260999, 100000000),
        fixed_from_rational(584962, 100000000),
        fixed_from_rational(114942, 10000000),
        fixed_from_rational(254703, 10000000),
        fixed_from_rational(610531, 10000000),
        fixed_from_rational(127866, 1000000),
        fixed_from_rational(216285, 1000000),
        fixed_from_rational(313035, 1000000),
        fixed_from_rational(412191, 1000000),
        fixed_from_rational(511976, 1000000),
    ];
    assert forall|col: int| 0 <= col < 11 implies r[col] == fee_rate(1, col) by {
        assert(col == 0 || col == 1 || col == 2 || col == 3 || col == 4 || col == 5 || col == 6
            || col == 7 || col == 8 || col == 9 || col == 10);
    }
    r
}

fn fee_rates_at_row_2() -> (r: Vec<u128>)
    ensures
        r.len() == 11,
        forall|col: int| 0 <= col < 11 ==> r[col] == fee_rate(2, col),
{
    let r: Vec<u128> = vec![
        0,
        fixed_from_rational(376267, 100000000),
        fixed_from_rational(815202, 100000000),
        fixed_from_rational(149288, 10000000),
        fixed_from_rational(299546, 10000000),
        fixed_from_rational(663214, 10000000),
        fixed_from_rational(133503, 1000000),
        fixed_from_rational(222025, 1000000),
        fixed_from_rational(318797, 1000000),
        fixed_from_rational(417955, 1000000),
        fixed_from_rational(517741, 1000000),
    ];
    assert forall|col: int| 0 <= col < 11 implies r[col] == fee_rate(2, col) by {
        assert(col == 0 || col == 1 || col == 2 || col == 3 || col == 4 || col == 5 || col == 6
            || col == 7 || col == 8 || col == 9 || col == 10);
    }
    r
}

fn fee_rates_at_row_3() -> (r: Vec<u128>)
    ensures
        r.len() == 11,
        forall|col: int| 0 <= col < 11 ==> r[col] == fee_rate(3, col),
{
    let r: Vec<u128> = vec![
        0,
        fixed_from_rational(807626, 100000000),
        fixed_from_rational(167679, 10000000),
        fixed_from_rational(277809, 10000000),
        fixed_from_rational(467319, 10000000),
        fixed_from_rational(860304, 10000000),
        fixed_from_rational(154595, 1000000),
        fixed_from_rational(243507, 1000000),
        fixed_from_rational(340357, 1000000),
        fixed_from_rational(439528, 1000000),
        fixed_from_rational(539315, 1000000),
    ];
    assert forall|col: int| 0 <= col < 11 implies r[col] == fee_rate(3, col) by {
        assert(col == 0 || col == 1 || col == 2 || col == 3 || col == 4 || col == 5 || col == 6
            || col == 7 || col == 8 || col == 9 || col == 10);
    }
    r
}

fn fee_rates_at_row_4() -> (r: Vec<u128>)
    ensures
        r.len() == 11,
        forall|col: int| 0 <= col < 11 ==> r[col] == fee_rate(4, col),
{
    let r: Vec<u128> = vec![
        0,
        fixed_from_rational(219503, 10000000),
        fixed_from_rational(444770, 10000000),
        fixed_from_rational(691029, 10000000),
        fixed_from_rational(100646, 1000000),
        fixed_from_rational(149348, 1000000),
        fixed_from_rational(222388, 1000000),
        fixed_from_rational(312586, 1000000),
        fixed_from_rational(409701, 1000000),
        fixed_from_rational(508916, 1000000),
        fixed_from_rational(608707, 1000000),
    ];
    assert forall|col: int| 0 <= col < 11 implies r[col] == fee_rate(4, col) by {
        assert(col == 0 || col == 1 || col == 2 || col == 3 || col == 4 || col == 5 || col == 6
            || col == 7 || col == 8 || col == 9 || col == 10);
    }
    r
}

fn fee_rates_at_row_5() -> (r: Vec<u128>)
    ensures
        r.len() == 11,
        forall|col: int| 0 <= col < 11 ==> r[col] == fee_rate(5, col),
{
    let r: Vec<u128> = vec![
        0,
        fixed_from_rational(511974, 10000000),
        fixed_from_rational(102871, 1000000),
        fixed_from_rational(156110, 1000000),
        fixed_from_rational(213989, 1000000),
        fixed_from_rational(282343, 1000000),
        fixed_from_rational(364989, 1000000),
        fixed_from_rational(458110, 1000000),
        fixed_from_rational(555871, 1000000),
        fixed_from_rational(655197, 1000000),
        fixed_from_rational(755000, 1000000),
    ];
    assert forall|col: int| 0 <= col < 11 implies r[col] == fee_rate(5, col) by {
        assert(col == 0 || col == 1 || col == 2 || col == 3 || col == 4 || col == 5 || col == 6
            || col == 7 || col == 8 || col == 9 || col == 10);
    }
    r
}

fn fee_rates_at_row_6() -> (r: Vec<u128>)
    ensures
        r.len() == 11,
        forall|col: int| 0 <= col < 11 ==> r[col] == fee_rate(6, col),
{
    let r: Vec<u128> = vec![
        0,
        fixed_from_rational(804354, 10000000),
        fixed_from_rational(161193, 1000000),
        fixed_from_rational(242816, 1000000),
        fixed_from_rational(326520, 1000000),
        fixed_from_rational(414156, 1000000),
        fixed_from_rational(506779, 1000000),
        fixed_from_rational(603334, 1000000),
        fixed_from_rational(701969, 1000000),
        fixed_from_rational(801470, 1000000),
        fixed_from_rational(901293, 1000000),
    ];
    assert forall|col: int| 0 <= col < 11 implies r[col] == fee_rate(6, col) by {
        assert(col == 0 || col == 1 || col == 2 || col == 3 || col == 4 || col == 5 || col == 6
            || col == 7 || col == 8 || col == 9 || col == 10);
    }
    r
}

fn fee_rates_at_row_7() -> (r: Vec<u128>)
    ensures
        r.len() == 11,
        forall|col: int| 0 <= col < 11 ==> r[col] == fee_rate(7, col),
{
    let r: Vec<u128> = vec![
        0,
        fixed_from_rational(942895, 10000000),
        fixed_from_rational(188758, 1000000),
        fixed_from_rational(283590, 1000000),
        fixed_from_rational(379083, 1000000),
        fixed_from_rational(475573, 1000000),
        fixed_from_rational(573220, 1000000),
        fixed_from_rational(671864, 1000000),
        fixed_from_rational(771169, 1000000),
        fixed_from_rational(870838, 1000000),
        fixed_from_rational(970685, 1000000),
    ];
    assert forall|col: int| 0 <= col < 11 implies r[col] == fee_rate(7, col) by {
        assert(col == 0 || col == 1 || col == 2 || col == 3 || col == 4 || col == 5 || col == 6
            || col == 7 || col == 8 || col == 9 || col == 10);
    }
    r
}

fn fee_rates_at_row_8() -> (r: Vec<u128>)
    ensures
        r.len() == 11,
        forall|col: int| 0 <= col < 11 ==> r[col] == fee_rate(8, col),
{
    let r: Vec<u128> = vec![
        0,
        fixed_from_rational(985811, 10000000),
        fixed_from_rational(197241, 1000000),
        fixed_from_rational(296017, 1000000),
        fixed_from_rational(394949, 1000000),
        fixed_from_rational(494073, 1000000),
        fixed_from_rational(593401, 1000000),
        fixed_from_rational(692920, 1000000),
        fixed_from_rational(792596, 1000000),
        fixed_from_rational(892388, 1000000),
        fixed_from_rational(992259, 1000000),
    ];
    assert forall|col: int| 0 <= col < 11 implies r[col] == fee_rate(8, col) by {
        assert(col == 0 || col == 1 || col == 2 || col == 3 || col == 4 || col == 5 || col == 6
            || col == 7 || col == 8 || col == 9 || col == 10);
    }
    r
}

fn fee_rates_at_row_9() -> (r: Vec<u128>)
    ensures
        r.len() == 11,
        forall|col: int| 0 <= col < 11 ==> r[col] == fee_rate(9, col),
{
    let r: Vec<u128> = vec![
        0,
        fixed_from_rational(997132, 10000000),
        fixed_from_rational(199444, 1000000),
        fixed_from_rational(299194, 1000000),
        fixed_from_rational(398965, 1000000),
        fixed_from_rational(498757, 1000000),
        fixed_from_rational(598570, 1000000),
        fixed_from_rational(698404, 1000000),
        fixed_from_rational(798259, 1000000),
        fixed_from_rational(898132, 1000000),
        fixed_from_rational(998024, 1000000),
    ];
    assert forall|col: int| 0 <= col < 11 implies r[col] == fee_rate(9, col) by {
        assert(col == 0 || col == 1 || col == 2 || col == 3 || col == 4 || col == 5 || col == 6
            || col == 7 || col == 8 || col == 9 || col == 10);
    }
    r
}

fn fee_rates_at_row_10() -> (r: Vec<u128>)
    ensures
        r.len() == 11,
        forall|col: int| 0 <= col < 11 ==> r[col] == fee_rate(10, col),
{
    let r: Vec<u128> = vec![
        0,
        RATE_ACCURACY,
        RATE_ACCURACY,
        RATE_ACCURACY,
        RATE_ACCURACY,
        RATE_ACCURACY,
        RATE_ACCURACY,
        RATE_ACCURACY,
        RATE_ACCURACY,
        RATE_ACCURACY,
        RATE_ACCURACY,
    ];
    assert forall|col: int| 0 <= col < 11 implies r[col] == fee_rate(10, col) by {
        assert(col == 0 || col == 1 || col == 2 || col == 3 || col == 4 || col == 5 || col == 6
            || col == 7 || col == 8 || col == 9 || col == 10);
    }
    r
}

/// The fee rate matrix, indexed by used buffer and then by demand, each in
/// steps of 10% from 0% to 100%.
pub fn fee_rate_matrix() -> (m: Vec<Vec<u128>>)
    ensures
        m.len() == 11,
        forall|row: int| 0 <= row < 11 ==> #[trigger] m[row].len() == 11,
        forall|row: int, col: int|
            0 <= row < 11 && 0 <= col < 11 ==> #[trigger] m[row][col] == fee_rate(row, col),
{
    let m: Vec<Vec<u128>> = vec![
        fee_rates_at_row_0(),
        fee_rates_at_row_1(),
        fee_rates_at_row_2(),
        fee_rates_at_row_3(),
        fee_rates_at_row_4(),
        fee_rates_at_row_5(),
        fee_rates_at_row_6(),
        fee_rates_at_row_7(),
        fee_rates_at_row_8(),
        fee_rates_at_row_9(),
        fee_rates_at_row_10(),
    ];
    assert forall|row: int| 0 <= row < 11 implies #[trigger] m[row].len() == 11 && forall|col: int|
        0 <= col < 11 ==> #[trigger] m[row][col] == fee_rate(row, col) by {
        assert(row == 0 || row == 1 || row == 2 || row == 3 || row == 4 || row == 5 || row == 6
            || row == 7 || row == 8 || row == 9 || row == 10);
    }
    m
}

/// `n * 10^18 / d` for the exact fractions of the matrix.
proof fn lemma_rational_rates()
    ensures
        forall|n: int, d: int|
            #![trigger rational_rate(n, d)]
            0 <= n <= 1_000_000 && (d == 1_000_000 || d == 10_000_000 || d == 100_000_000)
                ==> rational_rate(n, d) == n * (RATE_ACCURACY as int / d),
{
    assert forall|n: int, d: int|
        #![trigger rational_rate(n, d)]
        0 <= n <= 1_000_000 && (d == 1_000_000 || d == 10_000_000 || d == 100_000_000)
            implies rational_rate(n, d) == n * (RATE_ACCURACY as int / d) by {
        assert(n * 1_000_000_000_000_000_000int / d == n * (1_000_000_000_000_000_000int / d)
            && n * (1_000_000_000_000_000_000int / d) <= 1_000_000_000_000_000_000_000_000int)
            by (nonlinear_arith)
            requires
                0 <= n <= 1_000_000,
                d == 1_000_000 || d == 10_000_000 || d == 100_000_000,
        ;
    }
}

/// Each rate lies between zero and one; with no demand the rate is zero, and
/// with the buffer fully used any demand costs a rate of one.
pub proof fn lemma_fee_rate_bounds(row: int, col: int)
    requires
        0 <= row < 11,
        0 <= col < 11,
    ensures
        0 <= fee_rate(row, col) <= RATE_ACCURACY,
        col == 0 ==> fee_rate(row, col) == 0,
        row == 10 && col > 0 ==> fee_rate(row, col) == RATE_ACCURACY,
{
    lemma_rational_rates();
}

/// Along a row, a higher demand never gives a lower rate (adjacent columns).
proof fn lemma_fee_rate_next_column(row: int, col: int)
    requires
        0 <= row < 11,
        0 <= col < 10,
    ensures
        fee_rate(row, col) <= fee_rate(row, col + 1),
{
    lemma_rational_rates();
}

/// Down a column, a fuller buffer never gives a lower rate (adjacent rows).
proof fn lemma_fee_rate_next_row(row: int, col: int)
    requires
        0 <= row < 10,
        0 <= col < 11,
    ensures
        fee_rate(row, col) <= fee_rate(row + 1, col),
{
    lemma_rational_rates();
}

/// For a given use of the buffer, a higher demand never gives a lower rate.
pub proof fn lemma_fee_rate_monotone_in_demand(row: int, c1: int, c2: int)
    requires
        0 <= row < 11,
        0 <= c1 <= c2 < 11,
    ensures
        fee_rate(row, c1) <= fee_rate(row, c2),
    decreases c2 - c1,
{
    if c1 < c2 {
        lemma_fee_rate_next_column(row, c1);
        lemma_fee_rate_monotone_in_demand(row, c1 + 1, c2);
    }
}

/// For a given demand, a fuller buffer never gives a lower rate.
pub proof fn lemma_fee_rate_monotone_in_buffer(r1: int, r2: int, col: int)
    requires
        0 <= r1 <= r2 < 11,
        0 <= col < 11,
    ensures
        fee_rate(r1, col) <= fee_rate(r2, col),
    decreases r2 - r1,
{
    if r1 < r2 {
        lemma_fee_rate_next_row(r1, col);
        lemma_fee_rate_monotone_in_buffer(r1 + 1, r2, col);
    }
}

/// The matrix holds the listed rates, as inner `FixedU128` values (units of
/// `10^-18`). Row `r` is a used buffer of `10 * r` percent, column `c` a
/// demand in available of `10 * c` percent; for instance at 40% used buffer
/// and 40% demand the rate is 0.100646.
pub proof fn lemma_fee_rate_table()
    ensures
        fee_rate(0, 0) == 0int,
        fee_rate(0, 1) == 2314870000000000int,
        fee_rate(0, 2) == 5260130000000000int,
        fee_rate(0, 3) == 10614800000000000int,
        fee_rate(0, 4) == 24322100000000000int,
        fee_rate(0, 5) == 59704100000000000int,
        fee_rate(0, 6) == 126422000000000000int,
        fee_rate(0, 7) == 214815000000000000int,
        fee_rate(0, 8) == 311560000000000000int,
        fee_rate(0, 9) == 410715000000000000int,
        fee_rate(0, 10) == 510500000000000000int,
        fee_rate(1, 0) == 0int,
        fee_rate(1, 1) == 2609990000000000int,
        fee_rate(1, 2) == 5849620000000000int,
        fee_rate(1, 3) == 11494200000000000int,
        fee_rate(1, 4) == 25470300000000000int,
        fee_rate(1, 5) == 61053100000000000int,
        fee_rate(1, 6) == 127866000000000000int,
        fee_rate(1, 7) == 216285000000000000int,
        fee_rate(1, 8) == 313035000000000000int,
        fee_rate(1, 9) == 412191000000000000int,
        fee_rate(1, 10) == 511976000000000000int,
        fee_rate(2, 0) == 0int,
        fee_rate(2, 1) == 3762670000000000int,
        fee_rate(2, 2) == 8152020000000000int,
        fee_rate(2, 3) == 14928800000000000int,
        fee_rate(2, 4) == 29954600000000000int,
        fee_rate(2, 5) == 66321400000000000int,
        fee_rate(2, 6) == 133503000000000000int,
        fee_rate(2, 7) == 222025000000000000int,
        fee_rate(2, 8) == 318797000000000000int,
        fee_rate(2, 9) == 417955000000000000int,
        fee_rate(2, 10) == 517741000000000000int,
        fee_rate(3, 0) == 0int,
        fee_rate(3, 1) == 8076260000000000int,
        fee_rate(3, 2) == 16767900000000000int,
        fee_rate(3, 3) == 27780900000000000int,
        fee_rate(3, 4) == 46731900000000000int,
        fee_rate(3, 5) == 86030400000000000int,
        fee_rate(3, 6) == 154595000000000000int,
        fee_rate(3, 7) == 243507000000000000int,
        fee_rate(3, 8) == 340357000000000000int,
        fee_rate(3, 9) == 439528000000000000int,
        fee_rate(3, 10) == 539315000000000000int,
        fee_rate(4, 0) == 0int,
        fee_rate(4, 1) == 21950300000000000int,
        fee_rate(4, 2) == 44477000000000000int,
        fee_rate(4, 3) == 69102900000000000int,
        fee_rate(4, 4) == 100646000000000000int,
        fee_rate(4, 5) == 149348000000000000int,
        fee_rate(4, 6) == 222388000000000000int,
        fee_rate(4, 7) == 312586000000000000int,
        fee_rate(4, 8) == 409701000000000000int,
        fee_rate(4, 9) == 508916000000000000int,
        fee_rate(4, 10) == 608707000000000000int,
        fee_rate(5, 0) == 0int,
        fee_rate(5, 1) == 51197400000000000int,
        fee_rate(5, 2) == 102871000000000000int,
        fee_rate(5, 3) == 156110000000000000int,
        fee_rate(5, 4) == 213989000000000000int,
        fee_rate(5, 5) == 282343000000000000int,
        fee_rate(5, 6) == 364989000000000000int,
        fee_rate(5, 7) == 458110000000000000int,
        fee_rate(5, 8) == 555871000000000000int,
        fee_rate(5, 9) == 655197000000000000int,
        fee_rate(5, 10) == 755000000000000000int,
        fee_rate(6, 0) == 0int,
        fee_rate(6, 1) == 80435400000000000int,
        fee_rate(6, 2) == 161193000000000000int,
        fee_rate(6, 3) == 242816000000000000int,
        fee_rate(6, 4) == 326520000000000000int,
        fee_rate(6, 5) == 414156000000000000int,
        fee_rate(6, 6) == 506779000000000000int,
        fee_rate(6, 7) == 603334000000000000int,
        fee_rate(6, 8) == 701969000000000000int,
        fee_rate(6, 9) == 801470000000000000int,
        fee_rate(6, 10) == 901293000000000000int,
        fee_rate(7, 0) == 0int,
        fee_rate(7, 1) == 94289500000000000int,
        fee_rate(7, 2) == 188758000000000000int,
        fee_rate(7, 3) == 283590000000000000int,
        fee_rate(7, 4) == 379083000000000000int,
        fee_rate(7, 5) == 475573000000000000int,
        fee_rate(7, 6) == 573220000000000000int,
        fee_rate(7, 7) == 671864000000000000int,
        fee_rate(7, 8) == 771169000000000000int,
        fee_rate(7, 9) == 870838000000000000int,
        fee_rate(7, 10) == 970685000000000000int,
        fee_rate(8, 0) == 0int,
        fee_rate(8, 1) == 98581100000000000int,
        fee_rate(8, 2) == 197241000000000000int,
        fee_rate(8, 3) == 296017000000000000int,
        fee_rate(8, 4) == 394949000000000000int,
        fee_rate(8, 5) == 494073000000000000int,
        fee_rate(8, 6) == 593401000000000000int,
        fee_rate(8, 7) == 692920000000000000int,
        fee_rate(8, 8) == 792596000000000000int,
        fee_rate(8, 9) == 892388000000000000int,
        fee_rate(8, 10) == 992259000000000000int,
        fee_rate(9, 0) == 0int,
        fee_rate(9, 1) == 99713200000000000int,
        fee_rate(9, 2) == 199444000000000000int,
        fee_rate(9, 3) == 299194000000000000int,
        fee_rate(9, 4) == 398965000000000000int,
        fee_rate(9, 5) == 498757000000000000int,
        fee_rate(9, 6) == 598570000000000000int,
        fee_rate(9, 7) == 698404000000000000int,
        fee_rate(9, 8) == 798259000000000000int,
        fee_rate(9, 9) == 898132000000000000int,
        fee_rate(9, 10) == 998024000000000000int,
        fee_rate(10, 0) == 0int,
        fee_rate(10, 1) == 1000000000000000000int,
        fee_rate(10, 2) == 1000000000000000000int,
        fee_rate(10, 3) == 1000000000000000000int,
        fee_rate(10, 4) == 1000000000000000000int,
        fee_rate(10, 5) == 1000000000000000000int,
        fee_rate(10, 6) == 1000000000000000000int,
        fee_rate(10, 7) == 1000000000000000000int,
        fee_rate(10, 8) == 1000000000000000000int,
        fee_rate(10, 9) == 1000000000000000000int,
        fee_rate(10, 10) == 1000000000000000000int,
{
    lemma_rational_rates();
}

} // verus!
