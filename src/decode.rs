use vstd::prelude::*;

use crate::raster::RgbaRaster;

verus! {

pub open spec fn text_of(o: Option<String>) -> Option<Seq<char>> {
    match o {
        Some(s) => Some(s@),
        None => None,
    }
}

pub open spec fn texts(v: Seq<String>) -> Seq<Seq<char>> {
    v.map_values(|s: String| s@)
}

pub open spec fn result_texts(v: Seq<Option<String>>) -> Seq<Option<Seq<char>>> {
    v.map_values(|o: Option<String>| text_of(o))
}

/// The readable payloads among decoder results, in order; unreadable entries dropped.
pub open spec fn payloads(results: Seq<Option<Seq<char>>>) -> Seq<Seq<char>>
    decreases results.len(),
{
    if results.len() == 0 {
        seq![]
    } else {
        let front = payloads(results.drop_last());
        match results.last() {
            Some(t) => front.push(t),
            None => front,
        }
    }
}

/// Side, in pixels, of the blocks over which the decoder averages brightness.
pub const DECODER_BLOCK: u32 = 5;

/// Sizes the decoder handles: at least one block each way, and a block count
/// that fits in `u32`. An image under one block wide or high cannot hold a
/// QR code anyway.
pub open spec fn decodable_size(width: u32, height: u32) -> bool {
    &&& width >= DECODER_BLOCK
    &&& height >= DECODER_BLOCK
    &&& (width / DECODER_BLOCK + 1) * (height / DECODER_BLOCK + 1) <= u32::MAX
}

/// Keeps the readable payloads of decoder results, in the order given. The
/// decoder reports one entry per code it located, `None` for one it could not
/// read.
pub fn collect_payloads(results: Vec<Option<String>>) -> (r: Vec<String>)
    ensures
        texts(r@) == payloads(result_texts(results@)),
{
    let ghost all = result_texts(results@);
    let mut out: Vec<String> = Vec::new();
    let mut i: usize = 0;
    while i < results.len()
        invariant
            i <= results@.len(),
            all == result_texts(results@),
            texts(out@) == payloads(all.take(i as int)),
        decreases results@.len() - i,
    {
        proof {
            assert(all.take(i + 1).drop_last() =~= all.take(i as int));
        }
        let ghost before = out@;
        match &results[i] {
            Some(s) => {
                out.push(s.clone());
                proof {
                    assert(texts(out@) =~= texts(before).push(s@));
                }
            },
            None => {},
        }
        i = i + 1;
    }
    proof {
        assert(all.take(results@.len() as int) =~= all);
    }
    out
}

/// The payloads are the readable results in the decoder's order: keep the
/// entries that hold a payload, then take each payload out.
pub proof fn payloads_are_readable_results_in_order(results: Seq<Option<Seq<char>>>)
    ensures
        payloads(results) == results.filter(|o: Option<Seq<char>>| o is Some).map_values(
            |o: Option<Seq<char>>| o->0,
        ),
    decreases results.len(),
{
    reveal(Seq::filter);
    if results.len() > 0 {
        let front = results.drop_last();
        payloads_are_readable_results_in_order(front);
        let kept = front.filter(|o: Option<Seq<char>>| o is Some);
        assert(results.filter(|o: Option<Seq<char>>| o is Some) == if results.last() is Some {
            kept.push(results.last())
        } else {
            kept
        });
        if results.last() is Some {
            assert(kept.push(results.last()).map_values(|o: Option<Seq<char>>| o->0)
                =~= kept.map_values(|o: Option<Seq<char>>| o->0).push(results.last()->0));
        }
    } else {
        assert(results.filter(|o: Option<Seq<char>>| o is Some).map_values(
            |o: Option<Seq<char>>| o->0,
        ) =~= Seq::<Seq<char>>::empty());
    }
}

/// Whether the image has a size the QR decoder handles. Its `BlockedMean`
/// step underflows on an image under one block wide or high, and counts
/// blocks in `u32`; such an image is not handed to it.
pub fn is_decodable(img: &RgbaRaster) -> (r: bool)
    ensures
        r == decodable_size(img.spec_width(), img.spec_height()),
{
    let width = img.width();
    let height = img.height();
    if width < DECODER_BLOCK || height < DECODER_BLOCK {
        return false;
    }
    let across: u64 = (width / DECODER_BLOCK + 1) as u64;
    let down: u64 = (height / DECODER_BLOCK + 1) as u64;
    proof {
        assert(across * down <= 0xffff_ffff * 0xffff_ffff) by (nonlinear_arith)
            requires across <= 0xffff_ffff, down <= 0xffff_ffff;
    }
    across * down <= u32::MAX as u64
}

} // verus!
