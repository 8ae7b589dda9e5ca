//! Walking the chain of saved frame pointers in a snapshot of stack memory:
//! each frame keeps, just below its frame pointer, the return address and
//! the caller's frame pointer.

use vstd::prelude::*;

verus! {

/// Size in bytes of a machine word.
pub const WORD_BYTES: usize = 8;

/// A snapshot of stack memory: `words[i]` is the word at address
/// `base + WORD_BYTES * i`.
pub struct StackImage {
    pub base: usize,
    pub words: Vec<usize>,
}

/// One frame of the chain.
#[derive(Clone, Copy, Debug, PartialEq, Eq, Structural)]
pub struct FrameRecord {
    /// return address saved in the frame
    pub ra: usize,
    /// the caller's frame pointer saved in the frame
    pub old_sp: usize,
}

/// The word stored at `addr`, if the snapshot holds an aligned word there.
pub open spec fn word_at(img: &StackImage, addr: int) -> Option<usize> {
    let off = addr - img.base;
    if 0 <= off && off % (WORD_BYTES as int) == 0 && off / (WORD_BYTES as int) < img.words@.len() {
        Some(img.words@[off / (WORD_BYTES as int)])
    } else {
        None
    }
}

/// The frames reached from frame pointer `fp`, following at most `fuel`
/// links; the walk ends at a null frame pointer or at a frame whose words
/// the snapshot does not hold.
pub open spec fn frame_chain(img: &StackImage, fp: int, fuel: nat) -> Seq<FrameRecord>
    decreases fuel,
{
    if fuel == 0 || fp == 0 {
        Seq::empty()
    } else {
        match (word_at(img, fp - WORD_BYTES), word_at(img, fp - 2 * WORD_BYTES)) {
            (Some(ra), Some(old_sp)) => seq![FrameRecord { ra, old_sp }] + frame_chain(
                img,
                old_sp as int,
                (fuel - 1) as nat,
            ),
            _ => Seq::empty(),
        }
    }
}

fn read_word(img: &StackImage, addr: usize) -> (r: Option<usize>)
    ensures
        r == word_at(img, addr as int),
{
    if addr < img.base {
        return None;
    }
    let off = addr - img.base;
    if off % WORD_BYTES == 0 && off / WORD_BYTES < img.words.len() {
        Some(img.words[off / WORD_BYTES])
    } else {
        None
    }
}

/// The word `k` words below `fp`, if there is one.
fn read_below(img: &StackImage, fp: usize, k: usize) -> (r: Option<usize>)
    requires
        1 <= k <= 2,
    ensures
        r == word_at(img, fp - k * WORD_BYTES),
{
    match fp.checked_sub(k * WORD_BYTES) {
        Some(addr) => read_word(img, addr),
        None => None,
    }
}

/// Lists the frames reachable from frame pointer `fp`, innermost first.
/// The walk follows at most as many links as the snapshot has words, so
/// it ends on a cyclic chain too.
pub fn show_func_trace(img: &StackImage, fp: usize) -> (r: Vec<FrameRecord>)
    ensures
        r@ == frame_chain(img, fp as int, img.words@.len()),
{
    let mut out: Vec<FrameRecord> = Vec::new();
    let mut cur: usize = fp;
    let mut fuel: usize = img.words.len();
    while fuel > 0 && cur != 0
        invariant
            out@ + frame_chain(img, cur as int, fuel as nat) == frame_chain(
                img,
                fp as int,
                img.words@.len(),
            ),
        decreases fuel,
    {
        let ra = read_below(img, cur, 1);
        let old_sp = read_below(img, cur, 2);
        match (ra, old_sp) {
            (Some(ra), Some(old_sp)) => {
                let rec = FrameRecord { ra, old_sp };
                proof {
                    assert(out@.push(rec) + frame_chain(img, old_sp as int, (fuel - 1) as nat) =~= out@
                        + frame_chain(img, cur as int, fuel as nat));
                }
                out.push(rec);
                cur = old_sp;
                fuel -= 1;
            },
            _ => {
                proof {
                    assert(out@ =~= out@ + frame_chain(img, cur as int, fuel as nat));
                }
                return out;
            },
        }
    }
    proof {
        assert(out@ =~= out@ + frame_chain(img, cur as int, fuel as nat));
    }
    out
}

/// Innermost of the three nested demonstration calls: lists the frames.
pub fn f3(img: &StackImage, fp: usize) -> (r: Vec<FrameRecord>)
    ensures
        r@ == frame_chain(img, fp as int, img.words@.len()),
{
    show_func_trace(img, fp)
}

/// Middle demonstration call.
pub fn f2(img: &StackImage, fp: usize) -> (r: Vec<FrameRecord>)
    ensures
        r@ == frame_chain(img, fp as int, img.words@.len()),
{
    f3(img, fp)
}

/// Outermost demonstration call.
pub fn f1(img: &StackImage, fp: usize) -> (r: Vec<FrameRecord>)
    ensures
        r@ == frame_chain(img, fp as int, img.words@.len()),
{
    f2(img, fp)
}

} // verus!
