use vstd::prelude::*;

use crate::decode::{collect_payloads, payloads, result_texts, text_of, texts};

verus! {

/// Extra rows captured below a requested region.
pub const REGION_HEIGHT_PADDING: u32 = 48;

/// How long a region window stays open after a successful decode, in milliseconds.
pub const CLOSE_DELAY_MS: u64 = 200;

/// Where a captured image came from.
#[derive(Clone, Copy, Debug, PartialEq, Eq, Structural)]
pub enum Provenance {
    FullScreen,
    Region,
    Clipboard,
}

/// A screen rectangle to capture.
#[derive(Clone, Copy, Debug, PartialEq, Eq, Structural)]
pub struct CaptureArea {
    pub x: i32,
    pub y: i32,
    pub width: u32,
    pub height: u32,
}

/// The strings joined end to end, with no separator.
pub open spec fn concat_all(parts: Seq<Seq<char>>) -> Seq<char>
    decreases parts.len(),
{
    if parts.len() == 0 {
        seq![]
    } else {
        concat_all(parts.drop_last()) + parts.last()
    }
}

/// The text written to the clipboard for a list of payloads: none when the
/// list is empty, else all payloads joined.
pub open spec fn clipboard_write_of(parts: Seq<Seq<char>>) -> Option<Seq<char>> {
    if parts.len() == 0 {
        None
    } else {
        Some(concat_all(parts))
    }
}

/// The delay after which the originating window is closed, if it is.
pub open spec fn close_delay_of(source: Provenance, parts: Seq<Seq<char>>) -> Option<u64> {
    if source == Provenance::Region && parts.len() > 0 {
        Some(CLOSE_DELAY_MS)
    } else {
        None
    }
}

/// What to do after decoding one image.
#[derive(Debug)]
pub struct Dispatch {
    /// The payloads, in decoder order; also the answer to a region scan.
    pub decoded: Vec<String>,
    /// Text to write to the clipboard, if any.
    pub clipboard: Option<String>,
    /// Close the originating window after this many milliseconds, if set.
    pub close_after_ms: Option<u64>,
}

pub open spec fn dispatch_matches(d: Dispatch, source: Provenance, parts: Seq<Seq<char>>) -> bool {
    &&& texts(d.decoded@) == parts
    &&& text_of(d.clipboard) == clipboard_write_of(parts)
    &&& d.close_after_ms == close_delay_of(source, parts)
}

/// Joins the payloads end to end, with no separator.
pub fn joined_text(parts: &Vec<String>) -> (r: String)
    ensures
        r@ == concat_all(texts(parts@)),
{
    let ghost all = texts(parts@);
    let mut out: String = String::new();
    let mut i: usize = 0;
    while i < parts.len()
        invariant
            i <= parts@.len(),
            all == texts(parts@),
            out@ == concat_all(all.take(i as int)),
        decreases parts@.len() - i,
    {
        proof {
            assert(all.take(i + 1).drop_last() =~= all.take(i as int));
        }
        out.append(parts[i].as_str());
        i = i + 1;
    }
    proof {
        assert(all.take(parts@.len() as int) =~= all);
    }
    out
}

/// The clipboard text for a list of payloads: `None` when there are none.
pub fn clipboard_text(parts: &Vec<String>) -> (r: Option<String>)
    ensures
        text_of(r) == clipboard_write_of(texts(parts@)),
{
    if parts.len() == 0 {
        None
    } else {
        Some(joined_text(parts))
    }
}

/// Decides what follows a decode: the clipboard write, and for a region scan
/// that found something, the delayed close of its window.
pub fn plan_dispatch(source: Provenance, decoded: Vec<String>) -> (r: Dispatch)
    ensures
        dispatch_matches(r, source, texts(decoded@)),
{
    let clipboard = clipboard_text(&decoded);
    let close_after_ms = match source {
        Provenance::Region => if decoded.len() > 0 {
            Some(CLOSE_DELAY_MS)
        } else {
            None
        },
        _ => None,
    };
    Dispatch { decoded, clipboard, close_after_ms }
}

/// Plans what follows the decode of a captured image, from the decoder's
/// results. No results (a failed capture, or a clipboard without an image)
/// mean nothing is decoded or written.
pub fn handle_capture(source: Provenance, results: Option<Vec<Option<String>>>) -> (r: Option<
    Dispatch,
>)
    ensures
        results is None <==> r is None,
        results matches Some(rs) ==> (r matches Some(d) && dispatch_matches(
            d,
            source,
            payloads(result_texts(rs@)),
        )),
{
    match results {
        Some(rs) => {
            let decoded = collect_payloads(rs);
            Some(plan_dispatch(source, decoded))
        },
        None => None,
    }
}

/// The area captured for a region scan: the requested rectangle with
/// `REGION_HEIGHT_PADDING` more rows; `None` when that height overflows.
pub fn region_capture_area(x: i32, y: i32, width: u32, height: u32) -> (r: Option<CaptureArea>)
    ensures
        r is Some <==> height as int + REGION_HEIGHT_PADDING as int <= u32::MAX,
        r matches Some(a) ==> a == (CaptureArea {
            x,
            y,
            width,
            height: (height + REGION_HEIGHT_PADDING) as u32,
        }),
{
    match height.checked_add(REGION_HEIGHT_PADDING) {
        Some(h) => Some(CaptureArea { x, y, width, height: h }),
        None => None,
    }
}

/// Joining two lists of strings is joining each and then the two results.
pub proof fn lemma_concat_all_append(a: Seq<Seq<char>>, b: Seq<Seq<char>>)
    ensures
        concat_all(a + b) == concat_all(a) + concat_all(b),
    decreases b.len(),
{
    if b.len() == 0 {
        assert(a + b =~= a);
        assert(concat_all(a) + concat_all(b) =~= concat_all(a));
    } else {
        lemma_concat_all_append(a, b.drop_last());
        assert((a + b).drop_last() =~= a + b.drop_last());
        assert(concat_all(a) + (concat_all(b.drop_last()) + b.last())
            =~= (concat_all(a) + concat_all(b.drop_last())) + b.last());
    }
}

/// When the decoder reads no code from an image (it locates none, or reads
/// none of those it locates), the payload list is empty, nothing is written
/// to the clipboard and no window is closed.
pub proof fn no_codes_means_no_clipboard_write(
    source: Provenance,
    results: Seq<Option<Seq<char>>>,
)
    requires
        forall|i: int| 0 <= i < results.len() ==> #[trigger] results[i] is None,
    ensures
        payloads(results) == Seq::<Seq<char>>::empty(),
        clipboard_write_of(payloads(results)) is None,
        close_delay_of(source, payloads(results)) is None,
    decreases results.len(),
{
    if results.len() > 0 {
        let front = results.drop_last();
        assert forall|i: int| 0 <= i < front.len() implies #[trigger] front[i] is None by {
            assert(front[i] == results[i]);
        }
        no_codes_means_no_clipboard_write(source, front);
        assert(results[results.len() - 1] is None);
    }
    assert(payloads(results) =~= Seq::<Seq<char>>::empty());
}

/// When payloads were read, the clipboard receives all of them joined in the
/// decoder's order: payload `i` stands right after the payloads before it.
pub proof fn clipboard_text_keeps_decoder_order(parts: Seq<Seq<char>>)
    requires
        parts.len() > 0,
    ensures
        clipboard_write_of(parts) == Some(concat_all(parts)),
        forall|i: int|
            0 <= i < parts.len() ==> concat_all(parts).subrange(
                concat_all(parts.take(i)).len() as int,
                concat_all(parts.take(i + 1)).len() as int,
            ) == #[trigger] parts[i],
{
    assert forall|i: int| 0 <= i < parts.len() implies concat_all(parts).subrange(
        concat_all(parts.take(i)).len() as int,
        concat_all(parts.take(i + 1)).len() as int,
    ) == #[trigger] parts[i] by {
        let head = parts.take(i + 1);
        let tail = parts.skip(i + 1);
        assert(head + tail =~= parts);
        lemma_concat_all_append(head, tail);
        assert(head.drop_last() =~= parts.take(i));
        assert(head.last() == parts[i]);
        let before = concat_all(parts.take(i));
        assert(concat_all(head) == before + parts[i]);
        assert(concat_all(parts).subrange(before.len() as int, (before.len() + parts[i].len()) as int)
            =~= parts[i]);
    }
}

} // verus!
