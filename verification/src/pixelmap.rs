//! Per-pixel channel maps over interleaved AYUV pixel data.
//!
//! A frame is a byte vector of 4-byte pixels in channel order alpha, luma,
//! u-chroma, v-chroma. Each per-frame lookup table maps either a single
//! channel byte or a (u, v) chroma pair to a new channel value; building a
//! channel map is one table lookup per pixel, with no dependency between
//! pixels or between channels. The write-back puts three finished channel
//! maps back into the frame in place, leaving the alpha bytes untouched.

use vstd::prelude::*;

verus! {

/// Index into a 65536-entry chroma table for a (u, v) byte pair.
pub open spec fn uv_index(u: u8, v: u8) -> int {
    (u as int) * 256 + (v as int)
}

/// Map every pixel's (u, v) chroma pair through a 65536-entry table.
#[verifier::loop_isolation(false)]
pub fn uv_pixelmap<T: Copy>(data: &Vec<u8>, table: &Vec<T>) -> (out: Vec<T>)
    requires
        data@.len() % 4 == 0,
        table@.len() == crate::UV_TABLE_SIZE,
    ensures
        out@.len() == data@.len() / 4,
        forall|i: int|
            0 <= i < out@.len() ==> out@[i] == table@[uv_index(data@[4 * i + 2], data@[4 * i + 3])],
{
    let n = data.len() / 4;
    let mut out: Vec<T> = Vec::new();
    let mut p: usize = 0;
    while p < n
        invariant
            p <= n,
            out@.len() == p,
            forall|i: int|
                0 <= i < p ==> out@[i] == table@[uv_index(data@[4 * i + 2], data@[4 * i + 3])],
        decreases n - p,
    {
        let u = data[4 * p + 2];
        let v = data[4 * p + 3];
        let idx = (u as usize) * 256 + (v as usize);
        out.push(table[idx]);
        p = p + 1;
    }
    out
}

/// Map one channel byte of every pixel through a 256-entry table;
/// channel 1 with the luma remap table yields the luma map.
#[verifier::loop_isolation(false)]
pub fn channel_pixelmap<T: Copy>(data: &Vec<u8>, channel: usize, table: &Vec<T>) -> (out: Vec<T>)
    requires
        data@.len() % 4 == 0,
        channel < 4,
        table@.len() == 256,
    ensures
        out@.len() == data@.len() / 4,
        forall|i: int|
            0 <= i < out@.len() ==> out@[i] == table@[data@[4 * i + channel] as int],
{
    let n = data.len() / 4;
    let mut out: Vec<T> = Vec::new();
    let mut p: usize = 0;
    while p < n
        invariant
            p <= n,
            out@.len() == p,
            forall|i: int| 0 <= i < p ==> out@[i] == table@[data@[4 * i + channel] as int],
        decreases n - p,
    {
        out.push(table[data[4 * p + channel] as usize]);
        p = p + 1;
    }
    out
}

/// Chroma table indices of every `stride_pixels`-th pixel, first pixel
/// included: the sparse sample a frame-global statistic is computed from.
/// The samples cover the frame — the last sampled pixel is within one
/// stride of the end — and each index is in range for a chroma table.
#[verifier::loop_isolation(false)]
pub fn sample_uv_indices(data: &Vec<u8>, stride_pixels: usize) -> (out: Vec<usize>)
    requires
        data@.len() % 4 == 0,
        stride_pixels >= 1,
        data@.len() / 4 + stride_pixels <= usize::MAX,
    ensures
        forall|k: int|
            0 <= k < out@.len() ==> out@[k] == uv_index(
                data@[4 * (k * stride_pixels) + 2],
                data@[4 * (k * stride_pixels) + 3],
            ) && out@[k] < crate::UV_TABLE_SIZE,
        data@.len() == 0 ==> out@.len() == 0,
        data@.len() > 0 ==> out@.len() >= 1 && (out@.len() - 1) * stride_pixels < data@.len() / 4
            <= out@.len() * stride_pixels,
{
    let n_pixels = data.len() / 4;
    let mut out: Vec<usize> = Vec::new();
    let mut q: usize = 0;
    while q < n_pixels
        invariant
            q == out@.len() * stride_pixels,
            out@.len() >= 1 ==> (out@.len() - 1) * stride_pixels < n_pixels,
            q < n_pixels ==> out@.len() * stride_pixels < n_pixels,
            forall|k: int|
                0 <= k < out@.len() ==> out@[k] == uv_index(
                    data@[4 * (k * stride_pixels) + 2],
                    data@[4 * (k * stride_pixels) + 3],
                ) && out@[k] < crate::UV_TABLE_SIZE,
        decreases (if q <= n_pixels {
            n_pixels - q
        } else {
            0int
        }),
    {
        let u = data[4 * q + 2];
        let v = data[4 * q + 3];
        out.push((u as usize) * 256 + (v as usize));
        proof {
            let m = out@.len();
            assert(m * stride_pixels == (m - 1) * stride_pixels + stride_pixels) by (nonlinear_arith);
        }
        q = q + stride_pixels;
    }
    out
}

/// Every pixel of `post` carries its channel values from the three maps
/// and keeps its alpha byte from `pre`.
pub open spec fn channels_written(
    pre: Seq<u8>,
    post: Seq<u8>,
    ys: Seq<u8>,
    us: Seq<u8>,
    vs: Seq<u8>,
) -> bool {
    &&& post.len() == pre.len()
    &&& forall|i: int|
        0 <= i < pre.len() / 4 ==> #[trigger] post[4 * i] == pre[4 * i] && post[4 * i + 1] == ys[i]
            && post[4 * i + 2] == us[i] && post[4 * i + 3] == vs[i]
}

/// Write the finished luma, u and v channel maps back into the frame in
/// place; the alpha byte of every pixel is untouched.
#[verifier::loop_isolation(false)]
pub fn write_channels(data: &mut Vec<u8>, ys: &Vec<u8>, us: &Vec<u8>, vs: &Vec<u8>)
    requires
        old(data)@.len() % 4 == 0,
        ys@.len() == old(data)@.len() / 4,
        us@.len() == old(data)@.len() / 4,
        vs@.len() == old(data)@.len() / 4,
    ensures
        channels_written(old(data)@, final(data)@, ys@, us@, vs@),
    {
    let n = data.len() / 4;
    let mut p: usize = 0;
    while p < n
        invariant
            p <= n,
            data@.len() == old(data)@.len(),
            forall|i: int|
                0 <= i < p ==> #[trigger] data@[4 * i] == old(data)@[4 * i] && data@[4 * i + 1]
                    == ys@[i] && data@[4 * i + 2] == us@[i] && data@[4 * i + 3] == vs@[i],
            forall|j: int| 4 * p <= j < data@.len() ==> data@[j] == old(data)@[j],
        decreases n - p,
    {
        let ghost head = data@;
        data.set(4 * p + 1, ys[p]);
        data.set(4 * p + 2, us[p]);
        data.set(4 * p + 3, vs[p]);
        proof {
            assert forall|i: int|
                0 <= i <= p implies #[trigger] data@[4 * i] == old(data)@[4 * i] && data@[4 * i + 1]
                == ys@[i] && data@[4 * i + 2] == us@[i] && data@[4 * i + 3] == vs@[i] by {
                if i < p {
                    assert(head[4 * i] == old(data)@[4 * i]);
                    assert(data@[4 * i] == head[4 * i]);
                    assert(data@[4 * i + 1] == head[4 * i + 1]);
                    assert(data@[4 * i + 2] == head[4 * i + 2]);
                    assert(data@[4 * i + 3] == head[4 * i + 3]);
                } else {
                    assert(head[4 * i] == old(data)@[4 * i]);
                    assert(data@[4 * i] == head[4 * i]);
                }
            }
            assert forall|j: int| 4 * (p + 1) <= j < data@.len() implies data@[j] == old(data)@[j] by {
                assert(head[j] == old(data)@[j]);
                assert(data@[j] == head[j]);
            }
        }
        p = p + 1;
    }
    proof {
        assert forall|i: int| 0 <= i < old(data)@.len() / 4 implies #[trigger] data@[4 * i] == old(
            data,
        )@[4 * i] && data@[4 * i + 1] == ys@[i] && data@[4 * i + 2] == us@[i] && data@[4 * i + 3]
            == vs@[i] by {
            assert(0 <= i < p);
        }
        assert(channels_written(old(data)@, data@, ys@, us@, vs@));
    }
}

} // verus!
