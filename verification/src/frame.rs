//! Video frames: where to take them and how to lay out their pixels.

use vstd::prelude::*;

verus! {

/// Videos longer than this many nanoseconds count as long: their frames are
/// taken from the first third only, so that a film's ending is not shown.
pub const LONG_VIDEO_NANOS: u64 = 180_000_000_000;

/// The points of a video, in percent of its duration, at which frames are
/// taken as thumbnail candidates.
pub open spec fn seek_percentages(duration: nat) -> Seq<nat> {
    if duration > LONG_VIDEO_NANOS {
        seq![10, 15, 20, 25, 30]
    } else {
        seq![10, 20, 30, 60, 90]
    }
}

/// `num / den` rounded up.
pub open spec fn ceil_div(num: nat, den: nat) -> nat
    recommends
        den > 0,
{
    ((num + den - 1) as int / den as int) as nat
}

/// The positions, in nanoseconds, at which frames of a video of `duration`
/// nanoseconds are taken: each percentage of the duration, rounded up.
pub open spec fn seek_positions_spec(duration: nat) -> Seq<nat> {
    seek_percentages(duration).map_values(|p: nat| ceil_div(duration * p, 100))
}

/// Frames are taken in order: each position is at or after the one before,
/// and none lies past the end of the video. Frames of a long video come from
/// its first 30 percent only.
pub proof fn lemma_seek_positions_ordered(duration: nat)
    ensures
        seek_positions_spec(duration).len() == 5,
        forall|i: int, j: int|
            0 <= i <= j < 5 ==> #[trigger] seek_positions_spec(duration)[i]
                <= #[trigger] seek_positions_spec(duration)[j],
        forall|i: int| 0 <= i < 5 ==> #[trigger] seek_positions_spec(duration)[i] <= duration,
        duration > LONG_VIDEO_NANOS ==> forall|i: int|
            0 <= i < 5 ==> #[trigger] seek_positions_spec(duration)[i] <= ceil_div(
                duration * 30,
                100,
            ),
{
    let ps = seek_percentages(duration);
    let pos = seek_positions_spec(duration);
    assert forall|i: int| 0 <= i < 5 implies #[trigger] ps[i] <= 100 && (duration
        > LONG_VIDEO_NANOS ==> ps[i] <= 30) by {}
    assert forall|i: int, j: int| 0 <= i <= j < 5 implies #[trigger] ps[i] <= #[trigger] ps[j] by {}
    assert forall|i: int, j: int| 0 <= i <= j < 5 implies #[trigger] pos[i] <= #[trigger] pos[j] by {
        assert(duration * ps[i] <= duration * ps[j]) by (nonlinear_arith)
            requires
                ps[i] <= ps[j],
        ;
        lemma_ceil_div_monotonic(duration * ps[i], duration * ps[j], 100);
    }
    assert forall|i: int| 0 <= i < 5 implies #[trigger] pos[i] <= duration by {
        assert(duration * ps[i] <= duration * 100) by (nonlinear_arith)
            requires
                ps[i] <= 100,
        ;
        lemma_ceil_div_monotonic(duration * ps[i], duration * 100, 100);
        assert(ceil_div(duration * 100, 100) == duration);
    }
    if duration > LONG_VIDEO_NANOS {
        assert forall|i: int| 0 <= i < 5 implies #[trigger] pos[i] <= ceil_div(duration * 30, 100) by {
            assert(duration * ps[i] <= duration * 30) by (nonlinear_arith)
                requires
                    ps[i] <= 30,
            ;
            lemma_ceil_div_monotonic(duration * ps[i], duration * 30, 100);
        }
    }
}

proof fn lemma_ceil_div_bounds(n: nat, d: nat)
    requires
        d > 0,
    ensures
        n <= d * ceil_div(n, d),
        d * ceil_div(n, d) < n + d,
{
    let m = (n + d - 1) as int;
    vstd::arithmetic::div_mod::lemma_fundamental_div_mod(m, d as int);
    vstd::arithmetic::div_mod::lemma_mod_bound(m, d as int);
    assert(ceil_div(n, d) == m / (d as int));
}

/// The frames of a video are taken at fixed shares of its whole duration,
/// each rounded up to the next nanosecond: at 10, 15, 20, 25 and 30 percent
/// of a video longer than three minutes, at 10, 20, 30, 60 and 90 percent of
/// any other.
pub proof fn lemma_seek_positions_are_shares_of_duration(duration: nat)
    ensures
        seek_positions_spec(duration).len() == 5,
        forall|i: int|
            #![trigger seek_positions_spec(duration)[i]]
            0 <= i < 5 ==> {
                let p: int = if duration > 180_000_000_000 {
                    seq![10int, 15, 20, 25, 30][i]
                } else {
                    seq![10int, 20, 30, 60, 90][i]
                };
                &&& duration * p <= 100 * seek_positions_spec(duration)[i]
                &&& 100 * seek_positions_spec(duration)[i] < duration * p + 100
            },
{
    let ps = seek_percentages(duration);
    assert forall|i: int| 0 <= i < 5 implies {
        let p: int = if duration > 180_000_000_000 {
            seq![10int, 15, 20, 25, 30][i]
        } else {
            seq![10int, 20, 30, 60, 90][i]
        };
        &&& duration * p <= 100 * #[trigger] seek_positions_spec(duration)[i]
        &&& 100 * seek_positions_spec(duration)[i] < duration * p + 100
    } by {
        let p: int = if duration > 180_000_000_000 {
            seq![10int, 15, 20, 25, 30][i]
        } else {
            seq![10int, 20, 30, 60, 90][i]
        };
        assert(ps[i] == p);
        assert(seek_positions_spec(duration)[i] == ceil_div(duration * ps[i], 100));
        lemma_ceil_div_bounds(duration * ps[i], 100);
    }
}

proof fn lemma_ceil_div_monotonic(a: nat, b: nat, d: nat)
    requires
        a <= b,
        d > 0,
    ensures
        ceil_div(a, d) <= ceil_div(b, d),
{
    vstd::arithmetic::div_mod::lemma_div_is_ordered((a + d - 1) as int, (b + d - 1) as int, d as int);
}

fn percent_of(duration: u64, percent: u64) -> (r: u64)
    requires
        percent <= 100,
    ensures
        r == ceil_div((duration * percent) as nat, 100),
        r <= duration,
{
    assert(duration * percent <= duration * 100) by (nonlinear_arith)
        requires
            percent <= 100,
    ;
    let num: u128 = (duration as u128) * (percent as u128);
    let r = (num + 99) / 100;
    assert(r <= duration) by (nonlinear_arith)
        requires
            num <= duration * 100,
            r == (num + 99) / 100,
    ;
    r as u64
}

/// The positions at which frames of a video of `duration` nanoseconds are
/// taken as thumbnail candidates, as `seek_positions_spec` says: 10, 15, 20,
/// 25 and 30 percent of a long video, 10, 20, 30, 60 and 90 percent of a
/// short one.
pub fn seek_positions(duration: u64) -> (r: Vec<u64>)
    ensures
        r@.len() == 5,
        forall|i: int| 0 <= i < 5 ==> r@[i] == #[trigger] seek_positions_spec(duration as nat)[i],
        forall|i: int| 0 <= i < 5 ==> #[trigger] r@[i] <= duration,
        forall|i: int|
            #![trigger r@[i]]
            0 <= i < 5 ==> {
                let p: int = if duration > 180_000_000_000 {
                    seq![10int, 15, 20, 25, 30][i]
                } else {
                    seq![10int, 20, 30, 60, 90][i]
                };
                &&& duration * p <= 100 * r@[i]
                &&& 100 * r@[i] < duration * p + 100
            },
{
    let percentages: [u64; 5] = if duration > LONG_VIDEO_NANOS {
        [10, 15, 20, 25, 30]
    } else {
        [10, 20, 30, 60, 90]
    };
    let mut r: Vec<u64> = Vec::new();
    let mut i: usize = 0;
    while i < 5
        invariant
            i <= 5,
            r@.len() == i,
            forall|k: int| 0 <= k < 5 ==> percentages@[k] as nat == seek_percentages(
                duration as nat,
            )[k],
            forall|k: int| 0 <= k < 5 ==> #[trigger] percentages@[k] <= 100,
            forall|k: int|
                0 <= k < i ==> r@[k] == #[trigger] seek_positions_spec(duration as nat)[k],
            forall|k: int| 0 <= k < i ==> #[trigger] r@[k] <= duration,
        decreases 5 - i,
    {
        let p = percentages[i];
        let pos = percent_of(duration, p);
        r.push(pos);
        i = i + 1;
    }
    proof {
        lemma_seek_positions_are_shares_of_duration(duration as nat);
        assert forall|k: int| 0 <= k < 5 implies r@[k] == seek_positions_spec(duration as nat)[k] by {}
    }
    r
}

/// The pixel rows of a frame with `stride` bytes per row, cut to their first
/// `3 * width` bytes (three bytes per RGB pixel), `height` rows in all: the
/// byte at `column` of output row `row`. Rows for which `data` holds no
/// complete input row are zero.
pub open spec fn unpadded_byte(data: Seq<u8>, stride: nat, row: nat, column: nat) -> u8 {
    if row < data.len() / stride {
        data[(row * stride + column) as int]
    } else {
        0
    }
}

/// Copies the pixels of a frame whose rows are `stride` bytes apart into a
/// buffer without padding: `height` rows of `3 * width` bytes each. Input
/// rows are the complete `stride`-sized chunks of `data`; output rows past
/// the last complete input row stay zero.
pub fn strip_row_padding(data: &[u8], width: u32, height: u32, stride: usize) -> (r: Vec<u8>)
    requires
        width > 0,
        stride > 0,
        height > 0 && data@.len() >= stride ==> 3 * width <= stride,
        3 * width <= usize::MAX,
        3 * width * height <= usize::MAX,
    ensures
        r@.len() == 3 * width * height,
        forall|row: nat, column: nat|
            row < height && column < 3 * width ==> r@[(row * (3 * width) + column) as int]
                == #[trigger] unpadded_byte(data@, stride as nat, row, column),
{
    let ghost w3 = 3 * width as nat;
    let new_stride: usize = 3 * (width as usize);
    let data_len = data.len();
    let rows_in = data_len / stride;
    let mut r: Vec<u8> = Vec::new();
    let mut row: usize = 0;
    while row < height as usize
        invariant
            new_stride == w3,
            w3 == 3 * width,
            w3 > 0,
            rows_in == data@.len() / (stride as nat),
            data_len == data@.len(),
            stride > 0,
            height > 0 && data@.len() >= stride ==> 3 * width <= stride,
            3 * width * height <= usize::MAX,
            row <= height,
            r@.len() == row * w3,
            forall|rr: nat, c: nat|
                rr < row && c < w3 ==> r@[(rr * w3 + c) as int] == #[trigger] unpadded_byte(
                    data@,
                    stride as nat,
                    rr,
                    c,
                ),
        decreases height - row,
    {
        let ghost before = r@;
        assert((row + 1) * w3 <= w3 * height) by (nonlinear_arith)
            requires
                row < height,
        ;
        assert((row + 1) * w3 == row * w3 + w3) by (nonlinear_arith);
        let copy = row < rows_in;
        assert(copy ==> 3 * width <= stride && row * stride + stride <= data@.len()) by {
            if copy {
                assert(data@.len() >= stride) by (nonlinear_arith)
                    requires
                        row < data@.len() / (stride as nat),
                        stride > 0,
                ;
                assert((row + 1) * stride <= data@.len()) by (nonlinear_arith)
                    requires
                        row < data@.len() / (stride as nat),
                        stride > 0,
                ;
                assert((row + 1) * stride == row * stride + stride) by (nonlinear_arith);
            }
        }
        let mut c: usize = 0;
        while c < new_stride
            invariant
                new_stride == w3,
                w3 == 3 * width,
                w3 > 0,
                rows_in == data@.len() / (stride as nat),
                stride > 0,
                row < height,
                copy == (row < rows_in),
                copy ==> w3 <= stride,
                copy ==> row * stride + stride <= data@.len(),
                data_len == data@.len(),
                c <= w3,
                r@.len() == row * w3 + c,
                (row + 1) * w3 <= w3 * height,
                3 * width * height <= usize::MAX,
                forall|k: int| 0 <= k < row * w3 ==> r@[k] == before[k],
                forall|k: nat|
                    k < c ==> r@[(row * w3 + k) as int] == #[trigger] unpadded_byte(
                        data@,
                        stride as nat,
                        row as nat,
                        k,
                    ),
            decreases w3 - c,
        {
            if copy {
                let b = data[row * stride + c];
                r.push(b);
            } else {
                r.push(0);
            }
            c = c + 1;
        }
        assert forall|rr: nat, cc: nat| rr < row + 1 && cc < w3 implies r@[(rr * w3 + cc) as int]
            == #[trigger] unpadded_byte(data@, stride as nat, rr, cc) by {
            if rr < row {
                assert(rr * w3 + cc < row * w3) by (nonlinear_arith)
                    requires
                        rr < row,
                        cc < w3,
                ;
            }
        }
        row = row + 1;
    }
    assert(r@.len() == 3 * width * height) by (nonlinear_arith)
        requires
            r@.len() == row * w3,
            row == height,
            w3 == 3 * width,
    ;
    r
}

} // verus!
