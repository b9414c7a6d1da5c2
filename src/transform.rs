//! Transformation operators over an analysed clip.
//!
//! The fundamental-frequency contour holds one entry per frame in millihertz
//! (0 marks an unvoiced frame). Ratios are given in tenths (`10` is 1.0).
//! The spectral envelope is a matrix of rows, one per frame; its bins are
//! moved, never computed on, so any `Copy` bin type serves.
use vstd::prelude::*;

verus! {

/// Lowest frame period, in tenths of a millisecond, that resynthesis accepts.
pub const MIN_FRAME_PERIOD: u64 = 30;

/// Pitch that the robot preset gives every frame, in millihertz (100 Hz).
pub const ROBOT_F0: u64 = 100_000;

/// Pitch factor of the female preset, in tenths (2.5).
pub const FEMALE_PITCH: u64 = 25;

/// Envelope factor of the female preset, in tenths (1.2).
pub const FEMALE_ENVELOPE: u64 = 12;

/// Pitch and envelope factor of the mosaic preset, in tenths (0.5).
pub const MOSAIC_RATIO: u64 = 5;

/// `x` times `ratio` tenths, rounded down, saturating at `u64::MAX`.
pub open spec fn scaled(x: u64, ratio: u64) -> u64 {
    let p = (x as int) * (ratio as int) / 10;
    if p > u64::MAX as int { u64::MAX } else { p as u64 }
}

/// Every entry of `f0` scaled by `ratio` tenths.
pub open spec fn scaled_contour(f0: Seq<u64>, ratio: u64) -> Seq<u64> {
    Seq::new(f0.len(), |i: int| scaled(f0[i], ratio))
}

/// A contour of `n` frames, each at `value`.
pub open spec fn constant_contour(n: nat, value: u64) -> Seq<u64> {
    Seq::new(n, |i: int| value)
}

/// The source bin of output bin `j` under a warp by `ratio` tenths:
/// `floor(j / (ratio / 10))`.
pub open spec fn source_bin(j: int, ratio: int) -> int {
    (j * 10) / ratio
}

/// A row warped by `ratio` tenths: output bin `j` takes the source bin's
/// value; where the source bin lies past the row's end, bin `j` keeps its value.
pub open spec fn warped_row<T>(row: Seq<T>, ratio: int) -> Seq<T> {
    Seq::new(
        row.len(),
        |j: int|
            if source_bin(j, ratio) < row.len() {
                row[source_bin(j, ratio)]
            } else {
                row[j]
            },
    )
}

/// Every row of `m` warped by `ratio` tenths.
pub open spec fn warped<T>(m: Seq<Seq<T>>, ratio: int) -> Seq<Seq<T>> {
    Seq::new(m.len(), |i: int| warped_row(m[i], ratio))
}

/// The rows of a matrix, each seen as a sequence.
pub open spec fn matrix_view<T>(m: Seq<Vec<T>>) -> Seq<Seq<T>> {
    Seq::new(m.len(), |i: int| m[i]@)
}

/// `x` times `ratio` tenths, rounded down, saturating at `u64::MAX`.
pub fn scale(x: u64, ratio: u64) -> (r: u64)
    ensures
        r == scaled(x, ratio),
{
    proof {
        let a = x as int;
        let b = ratio as int;
        assert(a * b <= (u64::MAX as int) * (u64::MAX as int)) by (nonlinear_arith)
            requires
                0 <= a <= u64::MAX as int,
                0 <= b <= u64::MAX as int,
        ;
    }
    let wide: u128 = x as u128 * ratio as u128;
    let p: u128 = wide / 10;
    if p > u64::MAX as u128 {
        u64::MAX
    } else {
        p as u64
    }
}

/// Multiplies every entry of `f0` by `rate` tenths. Unvoiced frames stay 0.
pub fn change_pitch(f0: &mut Vec<u64>, rate: u64)
    ensures
        final(f0)@ == scaled_contour(old(f0)@, rate),
        forall|i: int|
            0 <= i < old(f0)@.len() && (old(f0)@[i] as int) * (rate as int) <= u64::MAX as int
                ==> final(f0)@[i] as int == (old(f0)@[i] as int) * (rate as int) / 10,
        forall|i: int| 0 <= i < old(f0)@.len() && old(f0)@[i] == 0 ==> final(f0)@[i] == 0,
{
    let n = f0.len();
    let mut i: usize = 0;
    while i < n
        invariant
            n == old(f0)@.len(),
            f0@.len() == n,
            0 <= i <= n,
            forall|k: int| 0 <= k < i ==> f0@[k] == scaled(old(f0)@[k], rate),
            forall|k: int| i <= k < n ==> f0@[k] == old(f0)@[k],
        decreases n - i,
    {
        let v = scale(f0[i], rate);
        f0[i] = v;
        i = i + 1;
    }
    assert(f0@ =~= scaled_contour(old(f0)@, rate));
}

/// Takes `speed` as the new frame period when it is at least
/// `MIN_FRAME_PERIOD`; otherwise the frame period is kept.
pub fn change_speed(fp: &mut u64, speed: u64)
    ensures
        speed >= MIN_FRAME_PERIOD ==> *final(fp) == speed,
        speed < MIN_FRAME_PERIOD ==> *final(fp) == *old(fp),
{
    if MIN_FRAME_PERIOD <= speed {
        *fp = speed;
    }
}

/// One row warped by `ratio` tenths, built fresh from `row`.
pub fn warp_row<T: Copy>(row: &Vec<T>, ratio: u64) -> (r: Vec<T>)
    requires
        ratio > 0,
    ensures
        r@ == warped_row(row@, ratio as int),
{
    let n = row.len();
    let mut out: Vec<T> = Vec::with_capacity(n);
    let mut j: usize = 0;
    while j < n
        invariant
            n == row@.len(),
            ratio > 0,
            0 <= j <= n,
            out@.len() == j,
            forall|k: int| 0 <= k < j ==> out@[k] == warped_row(row@, ratio as int)[k],
        decreases n - j,
    {
        let wide: u128 = j as u128 * 10;
        let src: u128 = wide / ratio as u128;
        if src < n as u128 {
            out.push(row[src as usize]);
        } else {
            out.push(row[j]);
        }
        j = j + 1;
    }
    assert(out@ =~= warped_row(row@, ratio as int));
    out
}

/// Warps every row of the spectral envelope by `ratio` tenths: output bin `j`
/// takes source bin `floor(j / (ratio / 10))` of the same row, and keeps its
/// value where that bin lies past the row's end. A ratio above 10 compresses
/// the envelope; one below 10 stretches it; 10 moves nothing.
pub fn change_spectral_envelope<T: Copy>(sp: &mut Vec<Vec<T>>, ratio: u64)
    requires
        ratio > 0,
    ensures
        matrix_view(final(sp)@) == warped(matrix_view(old(sp)@), ratio as int),
        ratio == 10 ==> matrix_view(final(sp)@) == matrix_view(old(sp)@),
{
    let n = sp.len();
    let mut i: usize = 0;
    while i < n
        invariant
            n == old(sp)@.len(),
            sp@.len() == n,
            ratio > 0,
            0 <= i <= n,
            forall|k: int| 0 <= k < i ==> sp@[k]@ == warped_row(old(sp)@[k]@, ratio as int),
            forall|k: int| i <= k < n ==> sp@[k] == old(sp)@[k],
        decreases n - i,
    {
        let row = warp_row(&sp[i], ratio);
        sp[i] = row;
        i = i + 1;
    }
    assert(matrix_view(sp@) =~= warped(matrix_view(old(sp)@), ratio as int));
    proof {
        if ratio == 10 {
            lemma_warp_by_one(matrix_view(old(sp)@));
        }
    }
}

/// A warp by 10 tenths leaves every row as it was.
pub proof fn lemma_warp_by_one<T>(m: Seq<Seq<T>>)
    ensures
        warped(m, 10) == m,
{
    assert forall|i: int| 0 <= i < m.len() implies #[trigger] warped(m, 10)[i] == m[i] by {
        assert forall|j: int| 0 <= j < m[i].len() implies source_bin(j, 10) == j by {}
        assert(warped_row(m[i], 10) =~= m[i]);
    }
    assert(warped(m, 10) =~= m);
}

/// Gives every frame the robot pitch.
pub fn to_robot(f0: &mut Vec<u64>)
    ensures
        final(f0)@ == constant_contour(old(f0)@.len(), ROBOT_F0),
{
    let n = f0.len();
    let mut i: usize = 0;
    while i < n
        invariant
            n == old(f0)@.len(),
            f0@.len() == n,
            0 <= i <= n,
            forall|k: int| 0 <= k < i ==> f0@[k] == ROBOT_F0,
        decreases n - i,
    {
        f0[i] = ROBOT_F0;
        i = i + 1;
    }
    assert(f0@ =~= constant_contour(old(f0)@.len(), ROBOT_F0));
}

/// Raises the pitch by `FEMALE_PITCH` and compresses the envelope by
/// `FEMALE_ENVELOPE`.
pub fn to_female<T: Copy>(f0: &mut Vec<u64>, sp: &mut Vec<Vec<T>>)
    ensures
        final(f0)@ == scaled_contour(old(f0)@, FEMALE_PITCH),
        matrix_view(final(sp)@) == warped(matrix_view(old(sp)@), FEMALE_ENVELOPE as int),
{
    change_pitch(f0, FEMALE_PITCH);
    change_spectral_envelope(sp, FEMALE_ENVELOPE);
}

/// Halves the pitch and stretches the envelope by `MOSAIC_RATIO`.
pub fn to_mosaic<T: Copy>(f0: &mut Vec<u64>, sp: &mut Vec<Vec<T>>)
    ensures
        final(f0)@ == scaled_contour(old(f0)@, MOSAIC_RATIO),
        matrix_view(final(sp)@) == warped(matrix_view(old(sp)@), MOSAIC_RATIO as int),
{
    change_pitch(f0, MOSAIC_RATIO);
    change_spectral_envelope(sp, MOSAIC_RATIO);
}

} // verus!
